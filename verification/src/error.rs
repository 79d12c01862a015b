//! The error taxonomy of the application and its HTTP mapping.
//!
//! Every failing operation reports one of the variants below; each variant
//! carries a human-readable message and maps to exactly one HTTP status
//! code. Serving code turns the `(status, message)` pair into a JSON
//! response body.

use vstd::prelude::*;

verus! {

/// Represents the possible errors that can occur in the application.
#[derive(Debug, PartialEq, Eq)]
pub enum ErrorType {
    /// A student or teacher with the same email is already registered (HTTP 409).
    EmailAlreadyExists(String),
    /// A class with the same name is already registered (HTTP 409).
    AlreadyExists(String),
    /// The roll number is not a positive decimal integer (HTTP 400).
    NegativeRollNumber(String),
    /// A registration assigns a class that is absent, so the payload is
    /// invalid (HTTP 400).
    AssignedClassDoesNotExist(String),
    /// A requested or referenced record is absent (HTTP 404).
    DoesNotExist(String),
    /// The store failed (HTTP 500).
    ServerError(String),
}

/// The mathematical shape of an [`ErrorType`]: the same variants over
/// character sequences instead of heap strings.
pub enum ErrView {
    EmailAlreadyExists(Seq<char>),
    AlreadyExists(Seq<char>),
    NegativeRollNumber(Seq<char>),
    AssignedClassDoesNotExist(Seq<char>),
    DoesNotExist(Seq<char>),
    ServerError(Seq<char>),
}

impl View for ErrorType {
    type V = ErrView;

    open spec fn view(&self) -> ErrView {
        match self {
            ErrorType::EmailAlreadyExists(m) => ErrView::EmailAlreadyExists(m@),
            ErrorType::AlreadyExists(m) => ErrView::AlreadyExists(m@),
            ErrorType::NegativeRollNumber(m) => ErrView::NegativeRollNumber(m@),
            ErrorType::AssignedClassDoesNotExist(m) => ErrView::AssignedClassDoesNotExist(m@),
            ErrorType::DoesNotExist(m) => ErrView::DoesNotExist(m@),
            ErrorType::ServerError(m) => ErrView::ServerError(m@),
        }
    }
}

/// The HTTP status code that each error variant maps to.
pub open spec fn status_of(e: ErrView) -> u16 {
    match e {
        ErrView::EmailAlreadyExists(_) => 409,
        ErrView::AlreadyExists(_) => 409,
        ErrView::NegativeRollNumber(_) => 400,
        ErrView::AssignedClassDoesNotExist(_) => 400,
        ErrView::DoesNotExist(_) => 404,
        ErrView::ServerError(_) => 500,
    }
}

/// The message carried by an error, whichever the variant.
pub open spec fn message_of(e: ErrView) -> Seq<char> {
    match e {
        ErrView::EmailAlreadyExists(m) => m,
        ErrView::AlreadyExists(m) => m,
        ErrView::NegativeRollNumber(m) => m,
        ErrView::AssignedClassDoesNotExist(m) => m,
        ErrView::DoesNotExist(m) => m,
        ErrView::ServerError(m) => m,
    }
}

pub open spec fn roll_number_message() -> Seq<char> {
    "Roll number must be positive"@
}

pub open spec fn student_email_message() -> Seq<char> {
    "Student with email already exists"@
}

pub open spec fn teacher_email_message() -> Seq<char> {
    "Teacher with email already exists"@
}

pub open spec fn class_exists_message() -> Seq<char> {
    "The class already exists"@
}

pub open spec fn student_missing_message() -> Seq<char> {
    "The student does not exist"@
}

pub open spec fn class_missing_message() -> Seq<char> {
    "The class does not exist"@
}

pub open spec fn student_not_found_message() -> Seq<char> {
    "The student record is not found"@
}

pub open spec fn teacher_not_found_message() -> Seq<char> {
    "The teacher record is not found"@
}

pub open spec fn server_error_message() -> Seq<char> {
    "Server Error"@
}

impl ErrorType {
    /// The error reported when a roll number fails validation.
    pub fn negative_roll_number() -> (e: ErrorType)
        ensures
            e@ == ErrView::NegativeRollNumber(roll_number_message()),
    {
        ErrorType::NegativeRollNumber("Roll number must be positive".to_owned())
    }

    /// The error reported when a student registration reuses an email.
    pub fn student_email_exists() -> (e: ErrorType)
        ensures
            e@ == ErrView::EmailAlreadyExists(student_email_message()),
    {
        ErrorType::EmailAlreadyExists("Student with email already exists".to_owned())
    }

    /// The error reported when a teacher registration reuses an email.
    pub fn teacher_email_exists() -> (e: ErrorType)
        ensures
            e@ == ErrView::EmailAlreadyExists(teacher_email_message()),
    {
        ErrorType::EmailAlreadyExists("Teacher with email already exists".to_owned())
    }

    /// The error reported when a class registration reuses a name.
    pub fn class_already_exists() -> (e: ErrorType)
        ensures
            e@ == ErrView::AlreadyExists(class_exists_message()),
    {
        ErrorType::AlreadyExists("The class already exists".to_owned())
    }

    /// The error reported when a write references a student that is absent.
    pub fn student_missing() -> (e: ErrorType)
        ensures
            e@ == ErrView::DoesNotExist(student_missing_message()),
    {
        ErrorType::DoesNotExist("The student does not exist".to_owned())
    }

    /// The error reported when a write references a class that is absent.
    pub fn class_missing() -> (e: ErrorType)
        ensures
            e@ == ErrView::DoesNotExist(class_missing_message()),
    {
        ErrorType::DoesNotExist("The class does not exist".to_owned())
    }

    /// The error reported when a registration assigns a class that is
    /// absent: the payload itself is invalid.
    pub fn assigned_class_missing() -> (e: ErrorType)
        ensures
            e@ == ErrView::AssignedClassDoesNotExist(class_missing_message()),
    {
        ErrorType::AssignedClassDoesNotExist("The class does not exist".to_owned())
    }

    /// The error reported when a student lookup finds nothing.
    pub fn student_not_found() -> (e: ErrorType)
        ensures
            e@ == ErrView::DoesNotExist(student_not_found_message()),
    {
        ErrorType::DoesNotExist("The student record is not found".to_owned())
    }

    /// The error reported when a teacher lookup finds nothing.
    pub fn teacher_not_found() -> (e: ErrorType)
        ensures
            e@ == ErrView::DoesNotExist(teacher_not_found_message()),
    {
        ErrorType::DoesNotExist("The teacher record is not found".to_owned())
    }

    /// The error reported when the store itself fails.
    pub fn server_error() -> (e: ErrorType)
        ensures
            e@ == ErrView::ServerError(server_error_message()),
    {
        ErrorType::ServerError("Server Error".to_owned())
    }

    /// The HTTP status code of this error.
    pub fn status_code(&self) -> (c: u16)
        ensures
            c == status_of(self@),
    {
        match self {
            ErrorType::EmailAlreadyExists(_) => 409,
            ErrorType::AlreadyExists(_) => 409,
            ErrorType::NegativeRollNumber(_) => 400,
            ErrorType::AssignedClassDoesNotExist(_) => 400,
            ErrorType::DoesNotExist(_) => 404,
            ErrorType::ServerError(_) => 500,
        }
    }

    /// The message carried by this error.
    pub fn message(&self) -> (m: &String)
        ensures
            m@ == message_of(self@),
    {
        match self {
            ErrorType::EmailAlreadyExists(m) => m,
            ErrorType::AlreadyExists(m) => m,
            ErrorType::NegativeRollNumber(m) => m,
            ErrorType::AssignedClassDoesNotExist(m) => m,
            ErrorType::DoesNotExist(m) => m,
            ErrorType::ServerError(m) => m,
        }
    }

    /// Splits the error into the HTTP status code and the message body,
    /// the two pieces a response is shaped from.
    pub fn status_and_message(self) -> (r: (u16, String))
        ensures
            r.0 == status_of(self@),
            r.1@ == message_of(self@),
    {
        match self {
            ErrorType::EmailAlreadyExists(m) => (409, m),
            ErrorType::AlreadyExists(m) => (409, m),
            ErrorType::NegativeRollNumber(m) => (400, m),
            ErrorType::AssignedClassDoesNotExist(m) => (400, m),
            ErrorType::DoesNotExist(m) => (404, m),
            ErrorType::ServerError(m) => (500, m),
        }
    }
}

} // verus!
