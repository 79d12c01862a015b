//! The mathematical model of the document store.
//!
//! [`DbView`] is the abstract state: one sequence of records per
//! collection plus the next identifier the store will assign. Every
//! endpoint is specified as a pure transition from a [`DbView`] and a
//! request to the next [`DbView`] and a response; the executable store
//! is proved to follow these transitions exactly.

use vstd::prelude::*;

use crate::error::{
    class_exists_message, class_missing_message, roll_number_message, server_error_message,
    student_email_message, student_missing_message, student_not_found_message,
    teacher_email_message, teacher_not_found_message, ErrView,
};
use crate::models::{AttendanceView, ClassView, StudentView, TeacherView};
use crate::roll::valid_roll;

verus! {

/// The abstract contents of the store: the four collections and the
/// identifier counter.
#[verifier::ext_equal]
pub struct DbView {
    pub students: Seq<StudentView>,
    pub teachers: Seq<TeacherView>,
    pub classes: Seq<ClassView>,
    pub records: Seq<AttendanceView>,
    pub next_id: u64,
}

/// Whether some student already uses `email`.
pub open spec fn student_email_taken(s: Seq<StudentView>, email: Seq<char>) -> bool {
    exists|i: int| 0 <= i < s.len() && (#[trigger] s[i]).email == email
}

/// Whether some teacher already uses `email`.
pub open spec fn teacher_email_taken(t: Seq<TeacherView>, email: Seq<char>) -> bool {
    exists|i: int| 0 <= i < t.len() && (#[trigger] t[i]).email == email
}

/// Whether some class already uses `name`.
pub open spec fn class_name_taken(c: Seq<ClassView>, name: Seq<char>) -> bool {
    exists|i: int| 0 <= i < c.len() && (#[trigger] c[i]).name == name
}

/// Whether a student with identifier `id` exists.
pub open spec fn student_id_exists(s: Seq<StudentView>, id: u64) -> bool {
    exists|i: int| 0 <= i < s.len() && (#[trigger] s[i]).id == Some(id)
}

/// Whether a teacher with identifier `id` exists.
pub open spec fn teacher_id_exists(t: Seq<TeacherView>, id: u64) -> bool {
    exists|i: int| 0 <= i < t.len() && (#[trigger] t[i]).id == Some(id)
}

/// Whether a class with identifier `id` exists.
pub open spec fn class_id_exists(c: Seq<ClassView>, id: u64) -> bool {
    exists|i: int| 0 <= i < c.len() && (#[trigger] c[i]).id == Some(id)
}

/// The first student whose identifier is `id`, if any.
pub open spec fn find_student(s: Seq<StudentView>, id: u64) -> Option<StudentView>
    decreases s.len(),
{
    if s.len() == 0 {
        None
    } else if s[0].id == Some(id) {
        Some(s[0])
    } else {
        find_student(s.drop_first(), id)
    }
}

/// The first teacher whose identifier is `id`, if any.
pub open spec fn find_teacher(t: Seq<TeacherView>, id: u64) -> Option<TeacherView>
    decreases t.len(),
{
    if t.len() == 0 {
        None
    } else if t[0].id == Some(id) {
        Some(t[0])
    } else {
        find_teacher(t.drop_first(), id)
    }
}

/// The attendance records whose student reference is `student_id`, in
/// store order.
pub open spec fn by_student(records: Seq<AttendanceView>, student_id: u64) -> Seq<AttendanceView> {
    records.filter(|a: AttendanceView| a.student_id == student_id)
}

/// The attendance records whose class reference is `class_id`, in store
/// order.
pub open spec fn by_class(records: Seq<AttendanceView>, class_id: u64) -> Seq<AttendanceView> {
    records.filter(|a: AttendanceView| a.class == Some(class_id))
}

impl DbView {
    /// The state of a store holding nothing.
    pub open spec fn empty() -> DbView {
        DbView {
            students: Seq::empty(),
            teachers: Seq::empty(),
            classes: Seq::empty(),
            records: Seq::empty(),
            next_id: 0,
        }
    }

    /// Whether the store can still assign a fresh identifier.
    pub open spec fn can_assign_id(self) -> bool {
        self.next_id < u64::MAX
    }

    /// The invariants of the store.
    ///
    /// Every persisted record carries an identifier below the counter;
    /// identifiers are unique within each collection; student emails,
    /// teacher emails and class names are unique; a teacher's assigned
    /// class and an attendance record's references name records that
    /// exist.
    pub open spec fn wf(self) -> bool {
        &&& forall|i: int|
            0 <= i < self.students.len() ==> ((#[trigger] self.students[i]).id matches Some(v)
                && v < self.next_id)
        &&& forall|i: int|
            0 <= i < self.teachers.len() ==> ((#[trigger] self.teachers[i]).id matches Some(v)
                && v < self.next_id)
        &&& forall|i: int|
            0 <= i < self.classes.len() ==> ((#[trigger] self.classes[i]).id matches Some(v)
                && v < self.next_id)
        &&& forall|i: int|
            0 <= i < self.records.len() ==> ((#[trigger] self.records[i]).id matches Some(v)
                && v < self.next_id)
        &&& forall|i: int, j: int|
            0 <= i < j < self.students.len() ==> #[trigger] self.students[i].id
                != #[trigger] self.students[j].id && self.students[i].email
                != self.students[j].email
        &&& forall|i: int, j: int|
            0 <= i < j < self.teachers.len() ==> #[trigger] self.teachers[i].id
                != #[trigger] self.teachers[j].id && self.teachers[i].email
                != self.teachers[j].email
        &&& forall|i: int, j: int|
            0 <= i < j < self.classes.len() ==> #[trigger] self.classes[i].id
                != #[trigger] self.classes[j].id && self.classes[i].name != self.classes[j].name
        &&& forall|i: int, j: int|
            0 <= i < j < self.records.len() ==> #[trigger] self.records[i].id
                != #[trigger] self.records[j].id
        &&& forall|i: int|
            0 <= i < self.teachers.len() ==> ((#[trigger] self.teachers[i]).class matches Some(c)
                ==> class_id_exists(self.classes, c))
        &&& forall|i: int|
            0 <= i < self.records.len() ==> student_id_exists(
                self.students,
                (#[trigger] self.records[i]).student_id,
            )
        &&& forall|i: int|
            0 <= i < self.records.len() ==> ((#[trigger] self.records[i]).class matches Some(c)
                ==> class_id_exists(self.classes, c))
    }
}

/// The registration transition for a student: validate the roll number,
/// check the email for uniqueness, then persist with a fresh identifier.
pub open spec fn add_student_spec(db: DbView, s: StudentView) -> (DbView, Result<
    StudentView,
    ErrView,
>) {
    if !valid_roll(s.roll_number) {
        (db, Err(ErrView::NegativeRollNumber(roll_number_message())))
    } else if student_email_taken(db.students, s.email) {
        (db, Err(ErrView::EmailAlreadyExists(student_email_message())))
    } else if !db.can_assign_id() {
        (db, Err(ErrView::ServerError(server_error_message())))
    } else {
        let rec = StudentView {
            id: Some(db.next_id),
            name: s.name,
            email: s.email,
            roll_number: s.roll_number,
        };
        (
            DbView {
                students: db.students.push(rec),
                next_id: (db.next_id + 1) as u64,
                ..db
            },
            Ok(rec),
        )
    }
}

/// The registration transition for a teacher: check the email for
/// uniqueness and, when a class is assigned, that the class exists, then
/// persist with a fresh identifier.
pub open spec fn add_teacher_spec(db: DbView, t: TeacherView) -> (DbView, Result<
    TeacherView,
    ErrView,
>) {
    if teacher_email_taken(db.teachers, t.email) {
        (db, Err(ErrView::EmailAlreadyExists(teacher_email_message())))
    } else if t.class matches Some(c) && !class_id_exists(db.classes, c) {
        (db, Err(ErrView::AssignedClassDoesNotExist(class_missing_message())))
    } else if !db.can_assign_id() {
        (db, Err(ErrView::ServerError(server_error_message())))
    } else {
        let rec = TeacherView { id: Some(db.next_id), name: t.name, email: t.email, class: t.class };
        (
            DbView {
                teachers: db.teachers.push(rec),
                next_id: (db.next_id + 1) as u64,
                ..db
            },
            Ok(rec),
        )
    }
}

/// The registration transition for a class: check the name for
/// uniqueness, then persist with a fresh identifier.
pub open spec fn add_class_spec(db: DbView, c: ClassView) -> (DbView, Result<ClassView, ErrView>) {
    if class_name_taken(db.classes, c.name) {
        (db, Err(ErrView::AlreadyExists(class_exists_message())))
    } else if !db.can_assign_id() {
        (db, Err(ErrView::ServerError(server_error_message())))
    } else {
        let rec = ClassView { id: Some(db.next_id), name: c.name };
        (
            DbView {
                classes: db.classes.push(rec),
                next_id: (db.next_id + 1) as u64,
                ..db
            },
            Ok(rec),
        )
    }
}

/// The attendance-marking transition: the referenced student must exist,
/// the referenced class must exist when one is supplied, and the stored
/// record carries the server's clock reading `now` and the present flag,
/// whatever the request carried for them.
pub open spec fn mark_attendance_spec(db: DbView, a: AttendanceView, now: i64) -> (DbView, Result<
    AttendanceView,
    ErrView,
>) {
    if !student_id_exists(db.students, a.student_id) {
        (db, Err(ErrView::DoesNotExist(student_missing_message())))
    } else if a.class matches Some(c) && !class_id_exists(db.classes, c) {
        (db, Err(ErrView::DoesNotExist(class_missing_message())))
    } else if !db.can_assign_id() {
        (db, Err(ErrView::ServerError(server_error_message())))
    } else {
        let rec = AttendanceView {
            id: Some(db.next_id),
            student_id: a.student_id,
            class: a.class,
            time: now,
            flag: true,
        };
        (
            DbView {
                records: db.records.push(rec),
                next_id: (db.next_id + 1) as u64,
                ..db
            },
            Ok(rec),
        )
    }
}

/// The lookup transition for a student: the first record with the
/// identifier, or a not-found error.
pub open spec fn get_student_spec(db: DbView, id: u64) -> Result<StudentView, ErrView> {
    match find_student(db.students, id) {
        Some(s) => Ok(s),
        None => Err(ErrView::DoesNotExist(student_not_found_message())),
    }
}

/// The lookup transition for a teacher: the first record with the
/// identifier, or a not-found error.
pub open spec fn get_teacher_spec(db: DbView, id: u64) -> Result<TeacherView, ErrView> {
    match find_teacher(db.teachers, id) {
        Some(t) => Ok(t),
        None => Err(ErrView::DoesNotExist(teacher_not_found_message())),
    }
}

/// An empty collection has no attendance for any student.
pub proof fn lemma_by_student_empty(student_id: u64)
    ensures
        by_student(Seq::empty(), student_id) == Seq::<AttendanceView>::empty(),
{
    reveal(Seq::filter);
}

/// An empty collection has no attendance for any class.
pub proof fn lemma_by_class_empty(class_id: u64)
    ensures
        by_class(Seq::empty(), class_id) == Seq::<AttendanceView>::empty(),
{
    reveal(Seq::filter);
}

/// One more stored record extends a student's attendance exactly when
/// the record references that student.
pub proof fn lemma_by_student_push(records: Seq<AttendanceView>, a: AttendanceView, student_id: u64)
    ensures
        by_student(records.push(a), student_id) == if a.student_id == student_id {
            by_student(records, student_id).push(a)
        } else {
            by_student(records, student_id)
        },
{
    records.lemma_filter_push(a, |r: AttendanceView| r.student_id == student_id);
}

/// One more stored record extends a class's attendance exactly when the
/// record references that class.
pub proof fn lemma_by_class_push(records: Seq<AttendanceView>, a: AttendanceView, class_id: u64)
    ensures
        by_class(records.push(a), class_id) == if a.class == Some(class_id) {
            by_class(records, class_id).push(a)
        } else {
            by_class(records, class_id)
        },
{
    records.lemma_filter_push(a, |r: AttendanceView| r.class == Some(class_id));
}

/// Pushing a record keeps every student that already existed reachable.
pub proof fn lemma_student_id_exists_push(s: Seq<StudentView>, r: StudentView, id: u64)
    requires
        student_id_exists(s, id),
    ensures
        student_id_exists(s.push(r), id),
{
    let i = choose|i: int| 0 <= i < s.len() && (#[trigger] s[i]).id == Some(id);
    assert(s.push(r)[i] == s[i]);
}

/// Pushing a record keeps every class that already existed reachable.
pub proof fn lemma_class_id_exists_push(c: Seq<ClassView>, r: ClassView, id: u64)
    requires
        class_id_exists(c, id),
    ensures
        class_id_exists(c.push(r), id),
{
    let i = choose|i: int| 0 <= i < c.len() && (#[trigger] c[i]).id == Some(id);
    assert(c.push(r)[i] == c[i]);
}

/// Registering a student preserves the invariants of the store.
pub proof fn lemma_add_student_wf(db: DbView, s: StudentView)
    requires
        db.wf(),
    ensures
        add_student_spec(db, s).0.wf(),
{
    let db2 = add_student_spec(db, s).0;
    if valid_roll(s.roll_number) && !student_email_taken(db.students, s.email)
        && db.can_assign_id() {
        assert(forall|i: int|
            0 <= i < db.students.len() ==> (#[trigger] db.students[i]).email != s.email);
        assert(forall|i: int|
            0 <= i < db2.students.len() ==> db2.students[i] == (if i < db.students.len() {
                db.students[i]
            } else {
                add_student_spec(db, s).1->Ok_0
            }));
        assert(forall|k: int| 0 <= k < db2.records.len() ==> student_id_exists(
            db2.students,
            (#[trigger] db2.records[k]).student_id,
        )) by {
            assert forall|k: int| 0 <= k < db2.records.len() implies student_id_exists(
                db2.students,
                (#[trigger] db2.records[k]).student_id,
            ) by {
                lemma_student_id_exists_push(
                    db.students,
                    add_student_spec(db, s).1->Ok_0,
                    db.records[k].student_id,
                );
            }
        }
    }
}

/// Registering a teacher preserves the invariants of the store.
pub proof fn lemma_add_teacher_wf(db: DbView, t: TeacherView)
    requires
        db.wf(),
    ensures
        add_teacher_spec(db, t).0.wf(),
{
    let db2 = add_teacher_spec(db, t).0;
    if !teacher_email_taken(db.teachers, t.email)
        && !(t.class matches Some(c) && !class_id_exists(db.classes, c))
        && db.can_assign_id() {
        assert(forall|i: int|
            0 <= i < db.teachers.len() ==> (#[trigger] db.teachers[i]).email != t.email);
        assert(forall|i: int|
            0 <= i < db2.teachers.len() ==> db2.teachers[i] == (if i < db.teachers.len() {
                db.teachers[i]
            } else {
                add_teacher_spec(db, t).1->Ok_0
            }));
    }
}

/// Registering a class preserves the invariants of the store.
pub proof fn lemma_add_class_wf(db: DbView, c: ClassView)
    requires
        db.wf(),
    ensures
        add_class_spec(db, c).0.wf(),
{
    let db2 = add_class_spec(db, c).0;
    if !class_name_taken(db.classes, c.name) && db.can_assign_id() {
        assert(forall|i: int|
            0 <= i < db.classes.len() ==> (#[trigger] db.classes[i]).name != c.name);
        assert(forall|i: int|
            0 <= i < db2.classes.len() ==> db2.classes[i] == (if i < db.classes.len() {
                db.classes[i]
            } else {
                add_class_spec(db, c).1->Ok_0
            }));
        assert(forall|k: int|
            0 <= k < db2.teachers.len() ==> ((#[trigger] db2.teachers[k]).class matches Some(x)
                ==> class_id_exists(db2.classes, x))) by {
            assert forall|k: int|
                0 <= k < db2.teachers.len() && #[trigger] db2.teachers[k].class is Some implies
                class_id_exists(db2.classes, db2.teachers[k].class->0) by {
                lemma_class_id_exists_push(
                    db.classes,
                    add_class_spec(db, c).1->Ok_0,
                    db.teachers[k].class->0,
                );
            }
        }
        assert(forall|k: int|
            0 <= k < db2.records.len() ==> ((#[trigger] db2.records[k]).class matches Some(x)
                ==> class_id_exists(db2.classes, x))) by {
            assert forall|k: int|
                0 <= k < db2.records.len() && #[trigger] db2.records[k].class is Some implies
                class_id_exists(db2.classes, db2.records[k].class->0) by {
                lemma_class_id_exists_push(
                    db.classes,
                    add_class_spec(db, c).1->Ok_0,
                    db.records[k].class->0,
                );
            }
        }
    }
}

/// Marking attendance preserves the invariants of the store.
pub proof fn lemma_mark_attendance_wf(db: DbView, a: AttendanceView, now: i64)
    requires
        db.wf(),
    ensures
        mark_attendance_spec(db, a, now).0.wf(),
{
    let db2 = mark_attendance_spec(db, a, now).0;
    if student_id_exists(db.students, a.student_id)
        && !(a.class matches Some(c) && !class_id_exists(db.classes, c))
        && db.can_assign_id() {
        assert(forall|i: int|
            0 <= i < db2.records.len() ==> db2.records[i] == (if i < db.records.len() {
                db.records[i]
            } else {
                mark_attendance_spec(db, a, now).1->Ok_0
            }));
    }
}

/// A student lookup succeeds exactly when a student with the identifier
/// exists, and what it finds is a stored record with that identifier.
pub proof fn lemma_find_student_exists(s: Seq<StudentView>, id: u64)
    ensures
        find_student(s, id) is Some <==> student_id_exists(s, id),
        find_student(s, id) matches Some(r) ==> r.id == Some(id) && s.contains(r),
    decreases s.len(),
{
    if s.len() > 0 {
        if s[0].id == Some(id) {
            assert(s.contains(s[0]));
        } else {
            lemma_find_student_exists(s.drop_first(), id);
            if student_id_exists(s, id) {
                let i = choose|i: int| 0 <= i < s.len() && (#[trigger] s[i]).id == Some(id);
                assert(s.drop_first()[i - 1] == s[i]);
            }
            if find_student(s.drop_first(), id) is Some {
                let r = find_student(s.drop_first(), id)->0;
                let i = choose|i: int| 0 <= i < s.drop_first().len() && s.drop_first()[i] == r;
                assert(s[i + 1] == s.drop_first()[i]);
            }
            if student_id_exists(s.drop_first(), id) {
                let i = choose|i: int|
                    0 <= i < s.drop_first().len() && (#[trigger] s.drop_first()[i]).id == Some(id);
                assert(s[i + 1] == s.drop_first()[i]);
            }
        }
    }
}

/// A teacher lookup succeeds exactly when a teacher with the identifier
/// exists, and what it finds is a stored record with that identifier.
pub proof fn lemma_find_teacher_exists(t: Seq<TeacherView>, id: u64)
    ensures
        find_teacher(t, id) is Some <==> teacher_id_exists(t, id),
        find_teacher(t, id) matches Some(r) ==> r.id == Some(id) && t.contains(r),
    decreases t.len(),
{
    if t.len() > 0 {
        if t[0].id == Some(id) {
            assert(t.contains(t[0]));
        } else {
            lemma_find_teacher_exists(t.drop_first(), id);
            if teacher_id_exists(t, id) {
                let i = choose|i: int| 0 <= i < t.len() && (#[trigger] t[i]).id == Some(id);
                assert(t.drop_first()[i - 1] == t[i]);
            }
            if find_teacher(t.drop_first(), id) is Some {
                let r = find_teacher(t.drop_first(), id)->0;
                let i = choose|i: int| 0 <= i < t.drop_first().len() && t.drop_first()[i] == r;
                assert(t[i + 1] == t.drop_first()[i]);
            }
            if teacher_id_exists(t.drop_first(), id) {
                let i = choose|i: int|
                    0 <= i < t.drop_first().len() && (#[trigger] t.drop_first()[i]).id == Some(id);
                assert(t[i + 1] == t.drop_first()[i]);
            }
        }
    }
}

/// Looking up an identifier that no stored student carries finds the
/// record just pushed with that identifier.
pub proof fn lemma_find_student_push_fresh(s: Seq<StudentView>, r: StudentView, id: u64)
    requires
        r.id == Some(id),
        !student_id_exists(s, id),
    ensures
        find_student(s.push(r), id) == Some(r),
    decreases s.len(),
{
    if s.len() == 0 {
        assert(s.push(r)[0] == r);
    } else {
        assert(s.push(r)[0] == s[0]);
        assert(s[0].id != Some(id));
        assert(s.push(r).drop_first() =~= s.drop_first().push(r));
        assert(!student_id_exists(s.drop_first(), id)) by {
            if student_id_exists(s.drop_first(), id) {
                let i = choose|i: int|
                    0 <= i < s.drop_first().len() && (#[trigger] s.drop_first()[i]).id == Some(id);
                assert(s[i + 1] == s.drop_first()[i]);
            }
        }
        lemma_find_student_push_fresh(s.drop_first(), r, id);
    }
}

/// Looking up an identifier that no stored teacher carries finds the
/// record just pushed with that identifier.
pub proof fn lemma_find_teacher_push_fresh(t: Seq<TeacherView>, r: TeacherView, id: u64)
    requires
        r.id == Some(id),
        !teacher_id_exists(t, id),
    ensures
        find_teacher(t.push(r), id) == Some(r),
    decreases t.len(),
{
    if t.len() == 0 {
        assert(t.push(r)[0] == r);
    } else {
        assert(t.push(r)[0] == t[0]);
        assert(t[0].id != Some(id));
        assert(t.push(r).drop_first() =~= t.drop_first().push(r));
        assert(!teacher_id_exists(t.drop_first(), id)) by {
            if teacher_id_exists(t.drop_first(), id) {
                let i = choose|i: int|
                    0 <= i < t.drop_first().len() && (#[trigger] t.drop_first()[i]).id == Some(id);
                assert(t[i + 1] == t.drop_first()[i]);
            }
        }
        lemma_find_teacher_push_fresh(t.drop_first(), r, id);
    }
}

} // verus!
