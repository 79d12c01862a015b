//! The laws of the store: properties that hold across whole operations
//! or across several of them, stated over the transitions of
//! [`crate::state`] and proved once and for all. The executable store
//! follows those transitions exactly, so each law carries over to it.

use vstd::prelude::*;
use vstd::multiset::Multiset;

use crate::error::{class_missing_message, message_of, status_of, ErrView};
use crate::models::{AttendanceView, StudentView, TeacherView};
use crate::roll::valid_roll;
use crate::state::{
    add_student_spec, add_teacher_spec, by_class, by_student, class_id_exists, get_student_spec,
    get_teacher_spec, lemma_by_student_push, lemma_find_student_exists,
    lemma_find_student_push_fresh, lemma_find_teacher_exists, lemma_find_teacher_push_fresh,
    mark_attendance_spec, student_email_taken, student_id_exists, teacher_email_taken,
    teacher_id_exists, DbView,
};

verus! {

/// The stored students whose email is `email`.
pub open spec fn students_with_email(s: Seq<StudentView>, email: Seq<char>) -> Seq<StudentView> {
    s.filter(|t: StudentView| t.email == email)
}

/// Where no stored student uses an email, no student matches it.
pub proof fn lemma_no_email_no_matches(s: Seq<StudentView>, email: Seq<char>)
    requires
        !student_email_taken(s, email),
    ensures
        students_with_email(s, email) == Seq::<StudentView>::empty(),
    decreases s.len(),
{
    reveal(Seq::filter);
    if s.len() > 0 {
        assert(forall|i: int| 0 <= i < s.len() ==> (#[trigger] s[i]).email != email);
        assert(forall|i: int|
            0 <= i < s.drop_last().len() ==> (#[trigger] s.drop_last()[i]).email != email);
        lemma_no_email_no_matches(s.drop_last(), email);
    }
}

/// One more stored student extends the matches of an email exactly when
/// that student uses it.
pub proof fn lemma_students_with_email_push(s: Seq<StudentView>, r: StudentView, email: Seq<char>)
    ensures
        students_with_email(s.push(r), email) == if r.email == email {
            students_with_email(s, email).push(r)
        } else {
            students_with_email(s, email)
        },
{
    s.lemma_filter_push(r, |t: StudentView| t.email == email);
}

/// Registering a student whose roll number is not a positive decimal
/// numeral is always rejected: the store is unchanged and the error is a
/// validation error carrying HTTP status 400.
pub proof fn lemma_invalid_roll_rejected(db: DbView, s: StudentView)
    requires
        !valid_roll(s.roll_number),
    ensures
        add_student_spec(db, s).0 == db,
        add_student_spec(db, s).1 matches Err(e) && status_of(e) == 400,
{
}

/// Registering two students with the same email: after the first
/// registration succeeds, the second is rejected with a conflict
/// carrying HTTP status 409, it leaves the store unchanged, and the
/// collection holds exactly one student with that email.
pub proof fn lemma_duplicate_email_conflict(db: DbView, s1: StudentView, s2: StudentView)
    requires
        add_student_spec(db, s1).1 is Ok,
        s2.email == s1.email,
        valid_roll(s2.roll_number),
    ensures
        add_student_spec(add_student_spec(db, s1).0, s2).0 == add_student_spec(db, s1).0,
        add_student_spec(add_student_spec(db, s1).0, s2).1 matches Err(e) && status_of(e) == 409,
        students_with_email(add_student_spec(db, s1).0.students, s1.email).len() == 1,
        students_with_email(
            add_student_spec(add_student_spec(db, s1).0, s2).0.students,
            s1.email,
        ).len() == 1,
{
    let db1 = add_student_spec(db, s1).0;
    let rec = add_student_spec(db, s1).1->Ok_0;
    assert(db1.students == db.students.push(rec));
    assert(db1.students[db.students.len() as int] == rec);
    assert(student_email_taken(db1.students, s2.email));
    lemma_no_email_no_matches(db.students, s1.email);
    lemma_students_with_email_push(db.students, rec, s1.email);
}

/// Registering a teacher that assigns a class no stored class carries
/// is rejected as an invalid payload: the store is unchanged and the
/// error carries HTTP status 400 with the missing-class message. The
/// email check comes first, so the email is assumed free.
pub proof fn lemma_teacher_missing_class_rejected(db: DbView, t: TeacherView, class_id: u64)
    requires
        !teacher_email_taken(db.teachers, t.email),
        t.class == Some(class_id),
        !class_id_exists(db.classes, class_id),
    ensures
        add_teacher_spec(db, t).0 == db,
        add_teacher_spec(db, t).1 matches Err(e) && status_of(e) == 400 && message_of(e)
            == class_missing_message(),
{
}

/// Marking attendance for a student identifier that no stored student
/// carries is always rejected: the store keeps exactly the records it
/// had, and the error carries HTTP status 404.
pub proof fn lemma_unknown_student_rejected(db: DbView, a: AttendanceView, now: i64)
    requires
        !student_id_exists(db.students, a.student_id),
    ensures
        mark_attendance_spec(db, a, now).0 == db,
        mark_attendance_spec(db, a, now).1 matches Err(e) && status_of(e) == 404,
{
}

/// The stored attendance timestamp, identifier and flag are the
/// server's: two requests that agree on the student and class references
/// have exactly the same outcome, whatever identifier, time or flag they
/// carried, and a stored record carries the server clock reading and the
/// present flag.
pub proof fn lemma_mark_server_assigned(
    db: DbView,
    a1: AttendanceView,
    a2: AttendanceView,
    now: i64,
)
    requires
        a1.student_id == a2.student_id,
        a1.class == a2.class,
    ensures
        mark_attendance_spec(db, a1, now) == mark_attendance_spec(db, a2, now),
        mark_attendance_spec(db, a1, now).1 matches Ok(rec) ==> rec.time == now && rec.flag,
{
}

/// Filtering commutes with forgetting order: the multiset of the
/// filtered sequence is the filtered multiset of the sequence.
pub proof fn lemma_filter_to_multiset<A>(s: Seq<A>, p: spec_fn(A) -> bool)
    ensures
        s.filter(p).to_multiset() == s.to_multiset().filter(p),
    decreases s.len(),
{
    broadcast use vstd::seq_lib::group_to_multiset_ensures;
    broadcast use vstd::multiset::group_multiset_axioms;

    reveal(Seq::filter);
    if s.len() == 0 {
        assert(s.to_multiset() =~= Multiset::<A>::empty());
        assert(s.to_multiset().filter(p) =~= Multiset::<A>::empty());
    } else {
        let rest = s.drop_last();
        let last = s.last();
        assert(s =~= rest.push(last));
        lemma_filter_to_multiset(rest, p);
        rest.lemma_filter_push(last, p);
        assert(s.to_multiset() == rest.to_multiset().insert(last));
        if p(last) {
            assert(rest.to_multiset().insert(last).filter(p) =~= rest.to_multiset().filter(
                p,
            ).insert(last));
        } else {
            assert(rest.to_multiset().insert(last).filter(p) =~= rest.to_multiset().filter(p));
        }
    }
}

/// The attendance listed for a student is exactly the stored records
/// referencing that student and nothing else, independent of insertion
/// order: two stores holding the same records in any orders list the
/// same multiset of records.
pub proof fn lemma_by_student_order_independent(
    r1: Seq<AttendanceView>,
    r2: Seq<AttendanceView>,
    student_id: u64,
)
    requires
        r1.to_multiset() == r2.to_multiset(),
    ensures
        by_student(r1, student_id).to_multiset() == by_student(r2, student_id).to_multiset(),
{
    lemma_filter_to_multiset(r1, |a: AttendanceView| a.student_id == student_id);
    lemma_filter_to_multiset(r2, |a: AttendanceView| a.student_id == student_id);
}

/// The attendance listed for a class is likewise independent of
/// insertion order: two stores holding the same records in any orders
/// list the same multiset of records.
pub proof fn lemma_by_class_order_independent(
    r1: Seq<AttendanceView>,
    r2: Seq<AttendanceView>,
    class_id: u64,
)
    requires
        r1.to_multiset() == r2.to_multiset(),
    ensures
        by_class(r1, class_id).to_multiset() == by_class(r2, class_id).to_multiset(),
{
    lemma_filter_to_multiset(r1, |a: AttendanceView| a.class == Some(class_id));
    lemma_filter_to_multiset(r2, |a: AttendanceView| a.class == Some(class_id));
}

/// A successful attendance mark is listed for its student: the new
/// store lists exactly what the old one listed plus the new record.
pub proof fn lemma_marked_attendance_listed(db: DbView, a: AttendanceView, now: i64)
    requires
        mark_attendance_spec(db, a, now).1 is Ok,
    ensures
        mark_attendance_spec(db, a, now).1 matches Ok(rec) && by_student(
            mark_attendance_spec(db, a, now).0.records,
            rec.student_id,
        ) == by_student(db.records, rec.student_id).push(rec),
{
    let rec = mark_attendance_spec(db, a, now).1->Ok_0;
    lemma_by_student_push(db.records, rec, rec.student_id);
}

/// A student lookup succeeds exactly when a student with the identifier
/// is stored; what it returns is a stored record carrying that
/// identifier, and a miss carries HTTP status 404.
pub proof fn lemma_student_lookup_exact(db: DbView, id: u64)
    ensures
        get_student_spec(db, id) is Ok <==> student_id_exists(db.students, id),
        get_student_spec(db, id) matches Ok(r) ==> r.id == Some(id) && db.students.contains(r),
        get_student_spec(db, id) matches Err(e) ==> status_of(e) == 404,
{
    lemma_find_student_exists(db.students, id);
}

/// A teacher lookup succeeds exactly when a teacher with the identifier
/// is stored; what it returns is a stored record carrying that
/// identifier, and a miss carries HTTP status 404.
pub proof fn lemma_teacher_lookup_exact(db: DbView, id: u64)
    ensures
        get_teacher_spec(db, id) is Ok <==> teacher_id_exists(db.teachers, id),
        get_teacher_spec(db, id) matches Ok(r) ==> r.id == Some(id) && db.teachers.contains(r),
        get_teacher_spec(db, id) matches Err(e) ==> status_of(e) == 404,
{
    lemma_find_teacher_exists(db.teachers, id);
}

/// Round trip: the record a successful student registration returns is
/// field for field what a lookup by its assigned identifier then finds.
pub proof fn lemma_student_round_trip(db: DbView, s: StudentView)
    requires
        db.wf(),
        add_student_spec(db, s).1 is Ok,
    ensures
        add_student_spec(db, s).1 matches Ok(rec) && get_student_spec(
            add_student_spec(db, s).0,
            rec.id->0,
        ) == Ok::<StudentView, ErrView>(rec),
{
    let rec = add_student_spec(db, s).1->Ok_0;
    assert(!student_id_exists(db.students, db.next_id)) by {
        if student_id_exists(db.students, db.next_id) {
            let i = choose|i: int|
                0 <= i < db.students.len() && (#[trigger] db.students[i]).id == Some(db.next_id);
        }
    }
    lemma_find_student_push_fresh(db.students, rec, db.next_id);
}

/// Round trip: the record a successful teacher registration returns is
/// field for field what a lookup by its assigned identifier then finds.
pub proof fn lemma_teacher_round_trip(db: DbView, t: TeacherView)
    requires
        db.wf(),
        add_teacher_spec(db, t).1 is Ok,
    ensures
        add_teacher_spec(db, t).1 matches Ok(rec) && get_teacher_spec(
            add_teacher_spec(db, t).0,
            rec.id->0,
        ) == Ok::<TeacherView, ErrView>(rec),
{
    let rec = add_teacher_spec(db, t).1->Ok_0;
    assert(!teacher_id_exists(db.teachers, db.next_id)) by {
        if teacher_id_exists(db.teachers, db.next_id) {
            let i = choose|i: int|
                0 <= i < db.teachers.len() && (#[trigger] db.teachers[i]).id == Some(db.next_id);
        }
    }
    lemma_find_teacher_push_fresh(db.teachers, rec, db.next_id);
}

} // verus!
