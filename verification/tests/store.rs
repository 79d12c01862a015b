use attendance_backend::db::{admit_attendance, admit_class, admit_student, admit_teacher, Db};
use attendance_backend::error::ErrorType;
use attendance_backend::models::{Attendance, Class, Student, Teacher};

fn student(name: &str, email: &str, roll: &str) -> Student {
    Student {
        id: None,
        name: name.to_string(),
        email: email.to_string(),
        roll_number: roll.to_string(),
    }
}

fn teacher(name: &str, email: &str, class: Option<u64>) -> Teacher {
    Teacher { id: None, name: name.to_string(), email: email.to_string(), class }
}

fn attendance(student_id: u64, class: Option<u64>) -> Attendance {
    Attendance { id: None, student_id, class, time: 0, flag: false }
}

#[test]
fn register_student_assigns_identifier() {
    let mut db = Db::new();
    let created = db.add_student(student("Asha", "asha@example.com", "12")).unwrap();
    assert!(created.id.is_some());
    assert_eq!(created.name, "Asha");
    assert_eq!(created.email, "asha@example.com");
    assert_eq!(created.roll_number, "12");
}

#[test]
fn register_student_discards_client_identifier() {
    let mut db = Db::new();
    let mut payload = student("Asha", "asha@example.com", "12");
    payload.id = Some(99);
    let created = db.add_student(payload).unwrap();
    assert_ne!(created.id, Some(99));
}

#[test]
fn invalid_roll_number_is_rejected_and_nothing_is_stored() {
    let mut db = Db::new();
    for roll in ["0", "-1", "abc", "", "12x"] {
        let err = db.add_student(student("Asha", "asha@example.com", roll)).unwrap_err();
        assert!(matches!(err, ErrorType::NegativeRollNumber(_)));
        assert_eq!(err.status_code(), 400);
    }
    // The email is still free: nothing was persisted by the rejected calls.
    assert!(db.add_student(student("Asha", "asha@example.com", "12")).is_ok());
}

#[test]
fn duplicate_email_is_a_conflict() {
    let mut db = Db::new();
    let first = db.add_student(student("Asha", "asha@example.com", "12")).unwrap();
    let err = db.add_student(student("Bina", "asha@example.com", "7")).unwrap_err();
    assert!(matches!(&err, ErrorType::EmailAlreadyExists(m) if m == "Student with email already exists"));
    let (status, message) = err.status_and_message();
    assert_eq!(status, 409);
    assert_eq!(message, "Student with email already exists");
    // The collection retains exactly the first document with that email.
    let stored = db.get_student(first.id.unwrap()).unwrap();
    assert_eq!(stored, first);
    // A different email still registers.
    assert!(db.add_student(student("Bina", "bina@example.com", "7")).is_ok());
}

#[test]
fn student_round_trip() {
    let mut db = Db::new();
    db.add_class(Class { id: None, name: "Physics".to_string() }).unwrap();
    let created = db.add_student(student("Asha", "asha@example.com", "12")).unwrap();
    let fetched = db.get_student(created.id.unwrap()).unwrap();
    assert_eq!(fetched, created);
}

#[test]
fn missing_student_lookup_is_not_found() {
    let db = Db::new();
    let err = db.get_student(5).unwrap_err();
    assert!(matches!(&err, ErrorType::DoesNotExist(m) if m == "The student record is not found"));
    assert_eq!(err.status_code(), 404);
}

#[test]
fn classes_are_listed_in_store_order() {
    let mut db = Db::new();
    let a = db.add_class(Class { id: None, name: "Physics".to_string() }).unwrap();
    let b = db.add_class(Class { id: None, name: "Chemistry".to_string() }).unwrap();
    let listed = db.get_classes();
    assert_eq!(listed, vec![a, b]);
}

#[test]
fn duplicate_class_name_is_a_conflict() {
    let mut db = Db::new();
    db.add_class(Class { id: None, name: "Physics".to_string() }).unwrap();
    let err = db.add_class(Class { id: None, name: "Physics".to_string() }).unwrap_err();
    assert!(matches!(&err, ErrorType::AlreadyExists(m) if m == "The class already exists"));
    assert_eq!(err.status_code(), 409);
    assert_eq!(db.get_classes().len(), 1);
}

#[test]
fn register_teacher_with_existing_class() {
    let mut db = Db::new();
    let class = db.add_class(Class { id: None, name: "Physics".to_string() }).unwrap();
    let created = db.add_teacher(teacher("Rao", "rao@example.com", class.id)).unwrap();
    assert!(created.id.is_some());
    assert_eq!(created.class, class.id);
    let fetched = db.get_teacher(created.id.unwrap()).unwrap();
    assert_eq!(fetched, created);
}

#[test]
fn register_teacher_without_class() {
    let mut db = Db::new();
    let created = db.add_teacher(teacher("Rao", "rao@example.com", None)).unwrap();
    assert!(created.id.is_some());
    assert_eq!(created.class, None);
}

#[test]
fn teacher_with_absent_class_is_rejected() {
    let mut db = Db::new();
    let err = db.add_teacher(teacher("Rao", "rao@example.com", Some(42))).unwrap_err();
    // Assigning an absent class makes the payload invalid: a validation
    // failure, not a lookup miss.
    assert!(matches!(&err, ErrorType::AssignedClassDoesNotExist(m) if m == "The class does not exist"));
    assert_eq!(err.status_code(), 400);
    // Nothing was stored: the email is still free.
    let class = db.add_class(Class { id: None, name: "Physics".to_string() }).unwrap();
    assert!(db.add_teacher(teacher("Rao", "rao@example.com", class.id)).is_ok());
}

#[test]
fn duplicate_teacher_email_is_a_conflict() {
    let mut db = Db::new();
    db.add_teacher(teacher("Rao", "rao@example.com", None)).unwrap();
    let err = db.add_teacher(teacher("Sen", "rao@example.com", None)).unwrap_err();
    assert!(matches!(&err, ErrorType::EmailAlreadyExists(m) if m == "Teacher with email already exists"));
    assert_eq!(err.status_code(), 409);
}

#[test]
fn missing_teacher_lookup_is_not_found() {
    let db = Db::new();
    let err = db.get_teacher(5).unwrap_err();
    assert!(matches!(&err, ErrorType::DoesNotExist(m) if m == "The teacher record is not found"));
    assert_eq!(err.status_code(), 404);
}

#[test]
fn marking_attendance_for_absent_student_stores_nothing() {
    let mut db = Db::new();
    let err = db.mark_attendance_at(attendance(42, None), 1000).unwrap_err();
    assert!(matches!(&err, ErrorType::DoesNotExist(m) if m == "The student does not exist"));
    assert_eq!(err.status_code(), 404);
    assert_eq!(db.get_attendance_by_student(42), vec![]);
}

#[test]
fn marking_attendance_for_absent_class_stores_nothing() {
    let mut db = Db::new();
    let s = db.add_student(student("Asha", "asha@example.com", "12")).unwrap();
    let sid = s.id.unwrap();
    let err = db.mark_attendance_at(attendance(sid, Some(77)), 1000).unwrap_err();
    assert!(matches!(&err, ErrorType::DoesNotExist(m) if m == "The class does not exist"));
    assert_eq!(db.get_attendance_by_student(sid), vec![]);
}

#[test]
fn marking_attendance_stores_the_server_values() {
    let mut db = Db::new();
    let s = db.add_student(student("Asha", "asha@example.com", "12")).unwrap();
    let sid = s.id.unwrap();
    // The request carries its own identifier, time and flag; all are
    // overwritten by the server.
    let payload = Attendance { id: Some(99), student_id: sid, class: None, time: 555, flag: false };
    let rec = db.mark_attendance_at(payload, 1234).unwrap();
    assert!(rec.id.is_some());
    assert_ne!(rec.id, Some(99));
    assert_eq!(rec.time, 1234);
    assert!(rec.flag);
    assert_eq!(rec.student_id, sid);
    assert_eq!(db.get_attendance_by_student(sid), vec![rec]);
}

#[test]
fn marking_attendance_at_the_clock_reads_the_clock() {
    let mut db = Db::new();
    let s = db.add_student(student("Asha", "asha@example.com", "12")).unwrap();
    let before = chrono::Utc::now().timestamp();
    let rec = db.mark_attendance(attendance(s.id.unwrap(), None)).unwrap();
    let after = chrono::Utc::now().timestamp();
    assert!(rec.flag);
    assert!(before <= rec.time && rec.time <= after);
}

#[test]
fn attendance_is_listed_exactly_by_student() {
    let mut db = Db::new();
    let a = db.add_student(student("Asha", "asha@example.com", "12")).unwrap();
    let b = db.add_student(student("Bina", "bina@example.com", "7")).unwrap();
    let class = db.add_class(Class { id: None, name: "Physics".to_string() }).unwrap();
    let (aid, bid) = (a.id.unwrap(), b.id.unwrap());
    let r1 = db.mark_attendance_at(attendance(aid, None), 10).unwrap();
    let r2 = db.mark_attendance_at(attendance(bid, class.id), 20).unwrap();
    let r3 = db.mark_attendance_at(attendance(aid, class.id), 30).unwrap();
    assert_eq!(db.get_attendance_by_student(aid), vec![r1, r3]);
    assert_eq!(db.get_attendance_by_student(bid), vec![r2]);
    assert_eq!(db.get_attendance_by_student(999), vec![]);
    assert_eq!(db.get_attendance_by_class(class.id.unwrap()), vec![r2, r3]);
    assert_eq!(db.get_attendance_by_class(999), vec![]);
}

#[test]
fn identifiers_are_unique_across_the_store() {
    let mut db = Db::new();
    let s = db.add_student(student("Asha", "asha@example.com", "12")).unwrap();
    let c = db.add_class(Class { id: None, name: "Physics".to_string() }).unwrap();
    let t = db.add_teacher(teacher("Rao", "rao@example.com", c.id)).unwrap();
    let r = db.mark_attendance_at(attendance(s.id.unwrap(), c.id), 10).unwrap();
    let ids = [s.id.unwrap(), c.id.unwrap(), t.id.unwrap(), r.id.unwrap()];
    for i in 0..ids.len() {
        for j in 0..i {
            assert_ne!(ids[i], ids[j]);
        }
    }
}

#[test]
fn error_variants_map_to_their_status_codes() {
    let conflict = ErrorType::EmailAlreadyExists("e".to_string());
    let taken = ErrorType::AlreadyExists("e".to_string());
    let invalid = ErrorType::NegativeRollNumber("e".to_string());
    let unassignable = ErrorType::AssignedClassDoesNotExist("e".to_string());
    let missing = ErrorType::DoesNotExist("e".to_string());
    let broken = ErrorType::ServerError("e".to_string());
    assert_eq!(conflict.status_code(), 409);
    assert_eq!(taken.status_code(), 409);
    assert_eq!(invalid.status_code(), 400);
    assert_eq!(unassignable.status_code(), 400);
    assert_eq!(missing.status_code(), 404);
    assert_eq!(broken.status_code(), 500);
    assert_eq!(broken.status_and_message(), (500, "e".to_string()));
}

#[test]
fn decision_gates_match_the_store() {
    assert!(admit_student("12", false).is_ok());
    assert!(matches!(admit_student("0", false), Err(ErrorType::NegativeRollNumber(_))));
    assert!(matches!(admit_student("12", true), Err(ErrorType::EmailAlreadyExists(_))));
    assert!(admit_teacher(false, false, false).is_ok());
    assert!(admit_teacher(false, true, true).is_ok());
    assert!(matches!(admit_teacher(true, false, false), Err(ErrorType::EmailAlreadyExists(_))));
    assert!(matches!(
        admit_teacher(false, true, false),
        Err(ErrorType::AssignedClassDoesNotExist(_))
    ));
    assert!(admit_class(false).is_ok());
    assert!(matches!(admit_class(true), Err(ErrorType::AlreadyExists(_))));
    assert!(admit_attendance(true, false, false).is_ok());
    assert!(admit_attendance(true, true, true).is_ok());
    assert!(matches!(admit_attendance(false, false, false), Err(ErrorType::DoesNotExist(_))));
    assert!(matches!(admit_attendance(true, true, false), Err(ErrorType::DoesNotExist(_))));
}
