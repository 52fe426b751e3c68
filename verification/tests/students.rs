use school_rules::context::SetDocContext;
use school_rules::store::MatchBy;
use school_rules::students::admission_query;
use school_rules::students::build_admission_pattern;
use school_rules::students::check_admission_number_unique;
use school_rules::students::check_class_exists;
use school_rules::students::check_student_document;
use school_rules::students::class_query;
use school_rules::students::validate_student_document;
use school_rules::students::StudentData;
use school_rules::students::StudentFindings;

fn student() -> StudentData {
    StudentData { admission_number: Some("ADM-2024-001".to_string()), class_id: Some("jss1".to_string()) }
}

fn create(record: StudentData) -> SetDocContext<StudentData> {
    SetDocContext { key: String::new(), proposed: Ok(record), current: None }
}

fn findings(admissions: &[&str], classes: &[&str]) -> StudentFindings {
    StudentFindings {
        admissions: Ok(admissions.iter().map(|k| k.to_string()).collect()),
        classes: Ok(classes.iter().map(|k| k.to_string()).collect()),
    }
}

fn reject(message: &str) -> Result<(), String> {
    Err(message.to_string())
}

#[test]
fn a_student_in_order_is_accepted() {
    assert_eq!(check_student_document(&create(student()), &findings(&[], &["jss1"])), Ok(()));
}

#[test]
fn admission_number_is_sought_in_lowercase() {
    assert_eq!(build_admission_pattern("ADM-2024-001"), "admissionNumber=adm-2024-001;");
    assert_eq!(build_admission_pattern("ÉLÈVE 7"), "admissionNumber=élève 7;");
}

#[test]
fn admission_number_is_unique() {
    assert_eq!(
        check_student_document(&create(student()), &findings(&["k3"], &["jss1"])),
        reject("Admission number 'ADM-2024-001' already exists")
    );
    assert_eq!(check_admission_number_unique("k3", &student(), &Ok(vec!["k3".to_string()])), Ok(()));
    assert_eq!(
        check_admission_number_unique("k4", &student(), &Ok(vec!["k3".to_string()])),
        reject("Admission number 'ADM-2024-001' already exists")
    );
}

#[test]
fn class_must_exist() {
    assert_eq!(
        check_student_document(&create(student()), &findings(&[], &[])),
        reject("Class 'jss1' not found")
    );
    assert_eq!(check_class_exists(&student(), &Err("down".to_string())), reject("down"));
}

#[test]
fn what_is_absent_or_blank_is_not_looked_up() {
    let bare = StudentData { admission_number: None, class_id: None };
    assert_eq!(check_student_document(&create(bare.clone()), &findings(&["k3"], &[])), Ok(()));
    assert_eq!(validate_student_document(&create(bare)), Ok(()));
    let blank = StudentData { admission_number: Some("  ".to_string()), class_id: Some(String::new()) };
    assert_eq!(check_student_document(&create(blank.clone()), &findings(&["k3"], &[])), Ok(()));
    assert_eq!(validate_student_document(&create(blank)), Ok(()));
}

#[test]
fn a_student_that_cannot_be_read_is_rejected() {
    let context: SetDocContext<StudentData> =
        SetDocContext { key: String::new(), proposed: Err("eof".to_string()), current: None };
    assert_eq!(validate_student_document(&context), reject("Invalid student data format: eof"));
    assert_eq!(check_student_document(&context, &findings(&[], &[])), reject("Invalid student data format: eof"));
}

#[test]
fn questions_about_students() {
    let q = admission_query("ADM-2024-001");
    assert_eq!(q.collection, "students");
    assert_eq!(q.by, MatchBy::Description);
    assert_eq!(q.pattern, "admissionNumber=adm-2024-001;");
    let q = class_query("jss1");
    assert_eq!(q.collection, "classes");
    assert_eq!(q.by, MatchBy::Key);
    assert_eq!(q.pattern, "jss1");
}
