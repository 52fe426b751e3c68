//! Students.

use vstd::prelude::*;
use crate::context::Answer;
use crate::context::SetDocContext;
use crate::store::check_present;
use crate::store::check_unique;
use crate::store::field_pattern;
use crate::store::ask;
use crate::store::description_query;
use crate::store::query_by_description;
use crate::store::Query;
use crate::store::key_query;
use crate::store::pattern_for;
use crate::store::present_verdict;
use crate::store::query_by_key;
use crate::store::unique_verdict;
use crate::text::is_blank;
use crate::text::lowercase;
use crate::text::lowercase_of;
use crate::text::str_is_blank;
use crate::verdict::and_then;
use crate::verdict::outcome;
use crate::verdict::quoting;
use crate::verdict::unreadable;
use crate::verdict::Verdict;

verus! {

/// What the rules read of a student: the admission number and the class.
#[derive(Clone, Debug)]
pub struct StudentData {
    pub admission_number: Option<String>,
    pub class_id: Option<String>,
}

/// What a write of a student is judged by besides the record: the store's
/// answers on the students that have its admission number, and on its class.
pub struct StudentFindings {
    pub admissions: Answer,
    pub classes: Answer,
}

/// The admission number that the rules look at: one that is given and not
/// blank.
pub open spec fn admission_number_of(student: StudentData) -> Option<Seq<char>> {
    match student.admission_number {
        Some(number) => if is_blank(number@) {
            None
        } else {
            Some(number@)
        },
        None => None,
    }
}

/// The class that the rules look at: one that is given and not blank.
pub open spec fn class_of(student: StudentData) -> Option<Seq<char>> {
    match student.class_id {
        Some(class) => if is_blank(class@) {
            None
        } else {
            Some(class@)
        },
        None => None,
    }
}

/// The pattern by which the students with an admission number are found: the
/// number in lowercase.
pub open spec fn admission_pattern(number: Seq<char>) -> Seq<char> {
    field_pattern("admissionNumber"@, lowercase_of(number))
}

/// No other student has the admission number, by the store's answer. A
/// student without one asks nothing of the store.
pub open spec fn admission_verdict(key: Seq<char>, student: StudentData, answer: Answer) -> Verdict {
    match admission_number_of(student) {
        Some(number) => unique_verdict(
            answer,
            key,
            quoting("Admission number '"@, number, "' already exists"@),
        ),
        None => Ok(()),
    }
}

/// The class of the student exists, by the store's answer. A student without
/// a class asks nothing of the store.
pub open spec fn class_verdict(student: StudentData, answer: Answer) -> Verdict {
    match class_of(student) {
        Some(class) => present_verdict(answer, quoting("Class '"@, class, "' not found"@)),
        None => Ok(()),
    }
}

/// The verdict on a write of a student: a record that cannot be read is
/// rejected with the decoder's words; else the admission number is unique
/// and the class exists.
pub open spec fn student_verdict(context: SetDocContext<StudentData>, findings: StudentFindings) -> Verdict {
    match context.proposed {
        Err(failure) => Err("Invalid student data format: "@ + failure@),
        Ok(student) => and_then(
            admission_verdict(context.key@, student, findings.admissions),
            class_verdict(student, findings.classes),
        ),
    }
}

/// Builds the pattern by which the students with an admission number are
/// found.
pub fn build_admission_pattern(number: &str) -> (out: String)
    ensures
        out@ == admission_pattern(number@),
{
    let lower = lowercase(number);
    pattern_for("admissionNumber", lower.as_str())
}

/// The question for the students that have the admission number `number`.
pub fn admission_query(number: &str) -> (query: Query)
    ensures
        query@ == description_query("students"@, admission_pattern(number@)),
{
    query_by_description("students", build_admission_pattern(number))
}

/// The question for the classes with the key `class_id`.
pub fn class_query(class_id: &str) -> (query: Query)
    ensures
        query@ == key_query("classes"@, class_id@),
{
    query_by_key("classes", class_id)
}

/// Reads the store's answer on the students that have the admission number
/// of `student`.
pub fn check_admission_number_unique(key: &str, student: &StudentData, answer: &Answer) -> (res:
    Result<(), String>)
    ensures
        outcome(res) == admission_verdict(key@, *student, *answer),
{
    match &student.admission_number {
        Some(number) => {
            if str_is_blank(number.as_str()) {
                return Ok(());
            }
            check_unique(answer, key, "Admission number '", number.as_str(), "' already exists")
        },
        None => Ok(()),
    }
}

/// Reads the store's answer on the class of `student`.
pub fn check_class_exists(student: &StudentData, answer: &Answer) -> (res: Result<(), String>)
    ensures
        outcome(res) == class_verdict(*student, *answer),
{
    match &student.class_id {
        Some(class) => {
            if str_is_blank(class.as_str()) {
                return Ok(());
            }
            check_present(answer, "Class '", class.as_str(), "' not found")
        },
        None => Ok(()),
    }
}

/// Decides on a write of a student, given the store's answers.
pub fn check_student_document(context: &SetDocContext<StudentData>, findings: &StudentFindings) -> (res:
    Result<(), String>)
    ensures
        outcome(res) == student_verdict(*context, *findings),
{
    match &context.proposed {
        Err(failure) => unreadable("Invalid student data format: ", failure),
        Ok(student) => {
            match check_admission_number_unique(context.key.as_str(), student, &findings.admissions) {
                Err(message) => Err(message),
                Ok(_) => check_class_exists(student, &findings.classes),
            }
        },
    }
}

/// Decides on a write of a student. The store is asked for what the record
/// gives; the verdict is the one that `student_verdict` gives for its
/// answers.
pub fn validate_student_document(context: &SetDocContext<StudentData>) -> (res: Result<(), String>)
    ensures
        exists|findings: StudentFindings|
            outcome(res) == #[trigger] student_verdict(*context, findings),
{
    let student = match &context.proposed {
        Err(failure) => {
            let res = unreadable("Invalid student data format: ", failure);
            proof {
                let findings: StudentFindings = arbitrary();
                assert(outcome(res) == student_verdict(*context, findings));
            }
            return res;
        },
        Ok(student) => student,
    };
    let admissions: Answer = match &student.admission_number {
        Some(number) => {
            if str_is_blank(number.as_str()) {
                Ok(Vec::new())
            } else {
                ask(&admission_query(number.as_str()))
            }
        },
        None => Ok(Vec::new()),
    };
    match check_admission_number_unique(context.key.as_str(), student, &admissions) {
        Err(message) => {
            proof {
                let findings = StudentFindings { admissions, classes: arbitrary() };
                assert(outcome(Err(message)) == student_verdict(*context, findings));
            }
            return Err(message);
        },
        Ok(_) => {},
    }
    let classes: Answer = match &student.class_id {
        Some(class) => {
            if str_is_blank(class.as_str()) {
                Ok(Vec::new())
            } else {
                ask(&class_query(class.as_str()))
            }
        },
        None => Ok(Vec::new()),
    };
    let res = check_class_exists(student, &classes);
    proof {
        let findings = StudentFindings { admissions, classes };
        assert(outcome(res) == student_verdict(*context, findings));
    }
    res
}

} // verus!
