//! The verified store and the request handlers over it.
//!
//! [`Db`] keeps the four collections in memory and assigns identifiers
//! from a counter. Each handler method is proved to follow the matching
//! transition of [`crate::state`] exactly: the same validation order,
//! the same errors, the same stored record.
//!
//! The `admit_*` functions are the decision rules of the handlers,
//! shared with serving code that keeps the collections in an outside
//! document database: such code computes the lookup facts (is the email
//! taken, does the referenced record exist) with database queries and
//! lets the rule decide acceptance exactly as the verified store does.

use vstd::prelude::*;

use crate::error::{
    class_exists_message, class_missing_message, roll_number_message, server_error_message,
    student_email_message, student_missing_message, teacher_email_message, ErrView, ErrorType,
};
use crate::models::{res_view, Attendance, Class, Student, Teacher};
use crate::roll::{parse_roll_number, valid_roll};
use crate::models::{AttendanceView, ClassView, StudentView, TeacherView};
use crate::state::{
    add_class_spec, add_student_spec, add_teacher_spec, by_class, by_student, class_id_exists,
    class_name_taken, find_student, find_teacher, get_student_spec, get_teacher_spec,
    lemma_add_class_wf, lemma_add_student_wf, lemma_add_teacher_wf, lemma_by_class_empty,
    lemma_by_class_push, lemma_by_student_empty, lemma_by_student_push, lemma_mark_attendance_wf,
    mark_attendance_spec, student_email_taken, student_id_exists, teacher_email_taken, DbView,
};

verus! {

/// The in-memory document store: one collection per record kind and the
/// counter the next identifier comes from.
pub struct Db {
    students: Vec<Student>,
    teachers: Vec<Teacher>,
    classes: Vec<Class>,
    records: Vec<Attendance>,
    next_id: u64,
}

impl View for Db {
    type V = DbView;

    closed spec fn view(&self) -> DbView {
        DbView {
            students: self.students@.map_values(|s: Student| s@),
            teachers: self.teachers@.map_values(|t: Teacher| t@),
            classes: self.classes@.map_values(|c: Class| c@),
            records: self.records@.map_values(|a: Attendance| a@),
            next_id: self.next_id,
        }
    }
}

/// Decides a student registration from the validation inputs: the roll
/// number as supplied and whether the email is already taken.
pub fn admit_student(roll_number: &str, email_taken: bool) -> (r: Result<(), ErrorType>)
    ensures
        r is Ok <==> valid_roll(roll_number@) && !email_taken,
        !valid_roll(roll_number@) ==> (r matches Err(e) && e@ == ErrView::NegativeRollNumber(
            roll_number_message(),
        )),
        valid_roll(roll_number@) && email_taken ==> (r matches Err(e) && e@
            == ErrView::EmailAlreadyExists(student_email_message())),
{
    if parse_roll_number(roll_number).is_none() {
        return Err(ErrorType::negative_roll_number());
    }
    if email_taken {
        return Err(ErrorType::student_email_exists());
    }
    Ok(())
}

/// Decides a teacher registration: whether the email is already taken,
/// whether a class is assigned, and whether that class was found. A
/// missing assigned class makes the payload invalid, a validation
/// failure distinct from a lookup miss.
pub fn admit_teacher(email_taken: bool, class_assigned: bool, class_found: bool) -> (r: Result<
    (),
    ErrorType,
>)
    ensures
        r is Ok <==> !email_taken && (class_assigned ==> class_found),
        email_taken ==> (r matches Err(e) && e@ == ErrView::EmailAlreadyExists(
            teacher_email_message(),
        )),
        !email_taken && class_assigned && !class_found ==> (r matches Err(e) && e@
            == ErrView::AssignedClassDoesNotExist(class_missing_message())),
{
    if email_taken {
        return Err(ErrorType::teacher_email_exists());
    }
    if class_assigned && !class_found {
        return Err(ErrorType::assigned_class_missing());
    }
    Ok(())
}

/// Decides a class registration: whether the name is already taken.
pub fn admit_class(name_taken: bool) -> (r: Result<(), ErrorType>)
    ensures
        r is Ok <==> !name_taken,
        name_taken ==> (r matches Err(e) && e@ == ErrView::AlreadyExists(class_exists_message())),
{
    if name_taken {
        return Err(ErrorType::class_already_exists());
    }
    Ok(())
}

/// Decides an attendance mark: whether the referenced student was found,
/// whether a class is referenced, and whether that class was found.
pub fn admit_attendance(student_found: bool, class_assigned: bool, class_found: bool) -> (r:
    Result<(), ErrorType>)
    ensures
        r is Ok <==> student_found && (class_assigned ==> class_found),
        !student_found ==> (r matches Err(e) && e@ == ErrView::DoesNotExist(
            student_missing_message(),
        )),
        student_found && class_assigned && !class_found ==> (r matches Err(e) && e@
            == ErrView::DoesNotExist(class_missing_message())),
{
    if !student_found {
        return Err(ErrorType::student_missing());
    }
    if class_assigned && !class_found {
        return Err(ErrorType::class_missing());
    }
    Ok(())
}

impl Db {
    /// Opens an empty store.
    pub fn new() -> (db: Db)
        ensures
            db@ == DbView::empty(),
            db@.wf(),
    {
        let db = Db {
            students: Vec::new(),
            teachers: Vec::new(),
            classes: Vec::new(),
            records: Vec::new(),
            next_id: 0,
        };
        proof {
            assert(db@ =~= DbView::empty());
        }
        db
    }

    /// Whether some stored student uses `email`.
    fn has_student_email(&self, email: &String) -> (b: bool)
        ensures
            b == student_email_taken(self@.students, email@),
    {
        let n = self.students.len();
        let mut i: usize = 0;
        while i < n
            invariant
                n == self.students.len(),
                0 <= i <= n,
                forall|j: int| 0 <= j < i ==> (#[trigger] self@.students[j]).email != email@,
            decreases n - i,
        {
            if self.students[i].email.eq(email) {
                assert(self@.students[i as int].email == email@);
                return true;
            }
            i = i + 1;
        }
        false
    }

    /// Whether some stored teacher uses `email`.
    fn has_teacher_email(&self, email: &String) -> (b: bool)
        ensures
            b == teacher_email_taken(self@.teachers, email@),
    {
        let n = self.teachers.len();
        let mut i: usize = 0;
        while i < n
            invariant
                n == self.teachers.len(),
                0 <= i <= n,
                forall|j: int| 0 <= j < i ==> (#[trigger] self@.teachers[j]).email != email@,
            decreases n - i,
        {
            if self.teachers[i].email.eq(email) {
                assert(self@.teachers[i as int].email == email@);
                return true;
            }
            i = i + 1;
        }
        false
    }

    /// Whether some stored class uses `name`.
    fn has_class_name(&self, name: &String) -> (b: bool)
        ensures
            b == class_name_taken(self@.classes, name@),
    {
        let n = self.classes.len();
        let mut i: usize = 0;
        while i < n
            invariant
                n == self.classes.len(),
                0 <= i <= n,
                forall|j: int| 0 <= j < i ==> (#[trigger] self@.classes[j]).name != name@,
            decreases n - i,
        {
            if self.classes[i].name.eq(name) {
                assert(self@.classes[i as int].name == name@);
                return true;
            }
            i = i + 1;
        }
        false
    }

    /// Whether a student with identifier `id` is stored.
    fn has_student_id(&self, id: u64) -> (b: bool)
        ensures
            b == student_id_exists(self@.students, id),
    {
        let n = self.students.len();
        let mut i: usize = 0;
        while i < n
            invariant
                n == self.students.len(),
                0 <= i <= n,
                forall|j: int| 0 <= j < i ==> (#[trigger] self@.students[j]).id != Some(id),
            decreases n - i,
        {
            let matches_id = match self.students[i].id {
                Some(v) => v == id,
                None => false,
            };
            if matches_id {
                assert(self@.students[i as int].id == Some(id));
                return true;
            }
            i = i + 1;
        }
        false
    }

    /// Whether a class with identifier `id` is stored.
    fn has_class_id(&self, id: u64) -> (b: bool)
        ensures
            b == class_id_exists(self@.classes, id),
    {
        let n = self.classes.len();
        let mut i: usize = 0;
        while i < n
            invariant
                n == self.classes.len(),
                0 <= i <= n,
                forall|j: int| 0 <= j < i ==> (#[trigger] self@.classes[j]).id != Some(id),
            decreases n - i,
        {
            let matches_id = match self.classes[i].id {
                Some(v) => v == id,
                None => false,
            };
            if matches_id {
                assert(self@.classes[i as int].id == Some(id));
                return true;
            }
            i = i + 1;
        }
        false
    }

    /// Registers a student: the roll number must be a positive decimal
    /// integer and the email must be free; the stored record gets a fresh
    /// identifier, whatever the request carried in its `id` field.
    pub fn add_student(&mut self, student: Student) -> (r: Result<Student, ErrorType>)
        requires
            old(self)@.wf(),
        ensures
            final(self)@.wf(),
            final(self)@ == add_student_spec(old(self)@, student@).0,
            res_view(r) == add_student_spec(old(self)@, student@).1,
    {
        let email_taken = self.has_student_email(&student.email);
        match admit_student(student.roll_number.as_str(), email_taken) {
            Err(e) => Err(e),
            Ok(()) => {
                if self.next_id == u64::MAX {
                    return Err(ErrorType::server_error());
                }
                let id = self.next_id;
                self.next_id = id + 1;
                let rec = Student {
                    id: Some(id),
                    name: student.name,
                    email: student.email,
                    roll_number: student.roll_number,
                };
                let out = rec.clone();
                self.students.push(rec);
                proof {
                    lemma_add_student_wf(old(self)@, student@);
                    assert(self@.students =~= add_student_spec(old(self)@, student@).0.students);
                    assert(self@ =~= add_student_spec(old(self)@, student@).0);
                }
                Ok(out)
            },
        }
    }

    /// Registers a teacher: the email must be free and the assigned
    /// class, when one is supplied, must exist; the stored record gets a
    /// fresh identifier, whatever the request carried in its `id` field.
    pub fn add_teacher(&mut self, teacher: Teacher) -> (r: Result<Teacher, ErrorType>)
        requires
            old(self)@.wf(),
        ensures
            final(self)@.wf(),
            final(self)@ == add_teacher_spec(old(self)@, teacher@).0,
            res_view(r) == add_teacher_spec(old(self)@, teacher@).1,
    {
        let email_taken = self.has_teacher_email(&teacher.email);
        let (class_assigned, class_found) = match teacher.class {
            Some(cid) => (true, self.has_class_id(cid)),
            None => (false, false),
        };
        match admit_teacher(email_taken, class_assigned, class_found) {
            Err(e) => Err(e),
            Ok(()) => {
                if self.next_id == u64::MAX {
                    return Err(ErrorType::server_error());
                }
                let id = self.next_id;
                self.next_id = id + 1;
                let rec = Teacher {
                    id: Some(id),
                    name: teacher.name,
                    email: teacher.email,
                    class: teacher.class,
                };
                let out = rec.clone();
                self.teachers.push(rec);
                proof {
                    lemma_add_teacher_wf(old(self)@, teacher@);
                    assert(self@.teachers =~= add_teacher_spec(old(self)@, teacher@).0.teachers);
                    assert(self@ =~= add_teacher_spec(old(self)@, teacher@).0);
                }
                Ok(out)
            },
        }
    }

    /// Registers a class: the name must be free; the stored record gets a
    /// fresh identifier, whatever the request carried in its `id` field.
    pub fn add_class(&mut self, class: Class) -> (r: Result<Class, ErrorType>)
        requires
            old(self)@.wf(),
        ensures
            final(self)@.wf(),
            final(self)@ == add_class_spec(old(self)@, class@).0,
            res_view(r) == add_class_spec(old(self)@, class@).1,
    {
        let name_taken = self.has_class_name(&class.name);
        match admit_class(name_taken) {
            Err(e) => Err(e),
            Ok(()) => {
                if self.next_id == u64::MAX {
                    return Err(ErrorType::server_error());
                }
                let id = self.next_id;
                self.next_id = id + 1;
                let rec = Class { id: Some(id), name: class.name };
                let out = rec.clone();
                self.classes.push(rec);
                proof {
                    lemma_add_class_wf(old(self)@, class@);
                    assert(self@.classes =~= add_class_spec(old(self)@, class@).0.classes);
                    assert(self@ =~= add_class_spec(old(self)@, class@).0);
                }
                Ok(out)
            },
        }
    }

    /// Marks attendance with the given clock reading: the referenced
    /// student must exist, and the referenced class, when one is
    /// supplied, must exist. The stored record carries `now` and the
    /// present flag; the identifier and any time the request carried are
    /// discarded.
    pub fn mark_attendance_at(&mut self, details: Attendance, now: i64) -> (r: Result<
        Attendance,
        ErrorType,
    >)
        requires
            old(self)@.wf(),
        ensures
            final(self)@.wf(),
            final(self)@ == mark_attendance_spec(old(self)@, details@, now).0,
            res_view(r) == mark_attendance_spec(old(self)@, details@, now).1,
    {
        let student_found = self.has_student_id(details.student_id);
        let (class_assigned, class_found) = match details.class {
            Some(cid) => (true, self.has_class_id(cid)),
            None => (false, false),
        };
        match admit_attendance(student_found, class_assigned, class_found) {
            Err(e) => Err(e),
            Ok(()) => {
                if self.next_id == u64::MAX {
                    return Err(ErrorType::server_error());
                }
                let id = self.next_id;
                self.next_id = id + 1;
                let rec = Attendance {
                    id: Some(id),
                    student_id: details.student_id,
                    class: details.class,
                    time: now,
                    flag: true,
                };
                self.records.push(rec);
                proof {
                    lemma_mark_attendance_wf(old(self)@, details@, now);
                    assert(self@.records =~= mark_attendance_spec(
                        old(self)@,
                        details@,
                        now,
                    ).0.records);
                    assert(self@ =~= mark_attendance_spec(old(self)@, details@, now).0);
                }
                Ok(rec)
            },
        }
    }

    /// Marks attendance at the current wall-clock time: as
    /// [`Db::mark_attendance_at`], with the clock read on entry, so the
    /// stored timestamp is the server's, never the caller's.
    pub fn mark_attendance(&mut self, details: Attendance) -> (r: Result<Attendance, ErrorType>)
        requires
            old(self)@.wf(),
        ensures
            final(self)@.wf(),
            r is Ok <==> (student_id_exists(old(self)@.students, details@.student_id) && (
            details@.class matches Some(c) ==> class_id_exists(old(self)@.classes, c))
                && old(self)@.can_assign_id()),
            exists|now: i64|
                final(self)@ == (#[trigger] mark_attendance_spec(old(self)@, details@, now)).0
                    && res_view(r) == mark_attendance_spec(old(self)@, details@, now).1,
    {
        let now = current_time_seconds();
        let r = self.mark_attendance_at(details, now);
        proof {
            assert(self@ == mark_attendance_spec(old(self)@, details@, now).0 && res_view(r)
                == mark_attendance_spec(old(self)@, details@, now).1);
        }
        r
    }

    /// Looks a student up by identifier.
    pub fn get_student(&self, student_id: u64) -> (r: Result<Student, ErrorType>)
        ensures
            res_view(r) == get_student_spec(self@, student_id),
    {
        let n = self.students.len();
        let mut i: usize = 0;
        proof {
            assert(self@.students.skip(0) =~= self@.students);
        }
        while i < n
            invariant
                n == self.students.len(),
                0 <= i <= n,
                find_student(self@.students.skip(i as int), student_id) == find_student(
                    self@.students,
                    student_id,
                ),
            decreases n - i,
        {
            let matches_id = match self.students[i].id {
                Some(v) => v == student_id,
                None => false,
            };
            proof {
                assert(self@.students.skip(i as int)[0] == self@.students[i as int]);
                assert(self@.students.skip(i as int).drop_first() =~= self@.students.skip(
                    i as int + 1,
                ));
            }
            if matches_id {
                return Ok(self.students[i].clone());
            }
            i = i + 1;
        }
        proof {
            assert(self@.students.skip(n as int) =~= Seq::<StudentView>::empty());
        }
        Err(ErrorType::student_not_found())
    }

    /// Looks a teacher up by identifier.
    pub fn get_teacher(&self, teacher_id: u64) -> (r: Result<Teacher, ErrorType>)
        ensures
            res_view(r) == get_teacher_spec(self@, teacher_id),
    {
        let n = self.teachers.len();
        let mut i: usize = 0;
        proof {
            assert(self@.teachers.skip(0) =~= self@.teachers);
        }
        while i < n
            invariant
                n == self.teachers.len(),
                0 <= i <= n,
                find_teacher(self@.teachers.skip(i as int), teacher_id) == find_teacher(
                    self@.teachers,
                    teacher_id,
                ),
            decreases n - i,
        {
            let matches_id = match self.teachers[i].id {
                Some(v) => v == teacher_id,
                None => false,
            };
            proof {
                assert(self@.teachers.skip(i as int)[0] == self@.teachers[i as int]);
                assert(self@.teachers.skip(i as int).drop_first() =~= self@.teachers.skip(
                    i as int + 1,
                ));
            }
            if matches_id {
                return Ok(self.teachers[i].clone());
            }
            i = i + 1;
        }
        proof {
            assert(self@.teachers.skip(n as int) =~= Seq::<TeacherView>::empty());
        }
        Err(ErrorType::teacher_not_found())
    }

    /// Returns every stored class, in store order.
    pub fn get_classes(&self) -> (r: Vec<Class>)
        ensures
            r@.map_values(|c: Class| c@) == self@.classes,
    {
        let n = self.classes.len();
        let mut out: Vec<Class> = Vec::new();
        let mut i: usize = 0;
        while i < n
            invariant
                n == self.classes.len(),
                0 <= i <= n,
                out@.map_values(|c: Class| c@) =~= self@.classes.take(i as int),
            decreases n - i,
        {
            let c = self.classes[i].clone();
            let ghost pre = out@;
            let ghost cv = c@;
            out.push(c);
            proof {
                assert(pre.map_values(|c: Class| c@).len() == pre.len());
                assert forall|k: int| 0 <= k < out@.len() implies out@.map_values(
                    |c: Class| c@,
                )[k] == #[trigger] self@.classes.take(i as int + 1)[k] by {
                    assert(out@.map_values(|c: Class| c@)[k] == out@[k]@);
                    if k < pre.len() {
                        assert(out@[k] == pre[k]);
                        assert(pre.map_values(|c: Class| c@)[k] == pre[k]@);
                    } else {
                        assert(out@[k]@ == cv);
                        assert(cv == self@.classes[i as int]);
                    }
                }
                assert(out@.map_values(|c: Class| c@) =~= self@.classes.take(i as int + 1));
            }
            i = i + 1;
        }
        proof {
            assert(self@.classes.take(n as int) =~= self@.classes);
        }
        out
    }

    /// Returns every attendance record whose student reference is
    /// `student_id`, in store order; an empty result is not an error.
    pub fn get_attendance_by_student(&self, student_id: u64) -> (r: Vec<Attendance>)
        ensures
            r@.map_values(|a: Attendance| a@) == by_student(self@.records, student_id),
    {
        let n = self.records.len();
        let mut out: Vec<Attendance> = Vec::new();
        let mut i: usize = 0;
        proof {
            lemma_by_student_empty(student_id);
            assert(self@.records.take(0) =~= Seq::<AttendanceView>::empty());
        }
        while i < n
            invariant
                n == self.records.len(),
                0 <= i <= n,
                out@.map_values(|a: Attendance| a@) =~= by_student(
                    self@.records.take(i as int),
                    student_id,
                ),
            decreases n - i,
        {
            let a = self.records[i];
            proof {
                lemma_by_student_push(
                    self@.records.take(i as int),
                    self@.records[i as int],
                    student_id,
                );
                assert(self@.records.take(i as int).push(self@.records[i as int])
                    =~= self@.records.take(i as int + 1));
            }
            if a.student_id == student_id {
                out.push(a);
            }
            i = i + 1;
        }
        proof {
            assert(self@.records.take(n as int) =~= self@.records);
        }
        out
    }

    /// Returns every attendance record whose class reference is
    /// `class_id`, in store order; an empty result is not an error.
    pub fn get_attendance_by_class(&self, class_id: u64) -> (r: Vec<Attendance>)
        ensures
            r@.map_values(|a: Attendance| a@) == by_class(self@.records, class_id),
    {
        let n = self.records.len();
        let mut out: Vec<Attendance> = Vec::new();
        let mut i: usize = 0;
        proof {
            lemma_by_class_empty(class_id);
            assert(self@.records.take(0) =~= Seq::<AttendanceView>::empty());
        }
        while i < n
            invariant
                n == self.records.len(),
                0 <= i <= n,
                out@.map_values(|a: Attendance| a@) =~= by_class(
                    self@.records.take(i as int),
                    class_id,
                ),
            decreases n - i,
        {
            let a = self.records[i];
            proof {
                lemma_by_class_push(
                    self@.records.take(i as int),
                    self@.records[i as int],
                    class_id,
                );
                assert(self@.records.take(i as int).push(self@.records[i as int])
                    =~= self@.records.take(i as int + 1));
            }
            let keep = match a.class {
                Some(v) => v == class_id,
                None => false,
            };
            if keep {
                out.push(a);
            }
            i = i + 1;
        }
        proof {
            assert(self@.records.take(n as int) =~= self@.records);
        }
        out
    }
}

/// Relies on `chrono::Utc::now` and `chrono::DateTime::timestamp`: the
/// current wall-clock time as whole seconds since the Unix epoch.
/// Nothing is assumed of the value; the machine's clock may read
/// anything.
#[verifier::external_body]
fn current_time_seconds() -> i64 {
    chrono::Utc::now().timestamp()
}

} // verus!
