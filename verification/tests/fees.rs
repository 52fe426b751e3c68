use school_rules::context::SetDocContext;
use school_rules::fees::validate_iso_date;
use school_rules::fees::validate_scholarship;
use school_rules::fees::validate_student_fee_assignment;
use school_rules::fees::FeeItemData;
use school_rules::fees::ScholarshipData;
use school_rules::fees::StudentFeeAssignmentData;

fn item(category_id: &str, amount: i64) -> FeeItemData {
    FeeItemData {
        category_id: category_id.to_string(),
        category_name: "Tuition".to_string(),
        fee_type: "tuition".to_string(),
        amount,
        amount_paid: 0,
        balance: amount,
        is_mandatory: true,
        is_optional: None,
        is_selected: None,
    }
}

fn assignment() -> StudentFeeAssignmentData {
    StudentFeeAssignmentData {
        student_id: "s1".to_string(),
        student_name: "Ada Obi".to_string(),
        class_id: "jss1".to_string(),
        fee_structure_id: "fs1".to_string(),
        academic_year: "2023/2024".to_string(),
        term: "first".to_string(),
        fee_items: vec![item("tuition", 8_000_000), item("books", 2_000_000)],
        original_amount: None,
        total_amount: 10_000_000,
        amount_paid: 4_000_000,
        balance: 6_000_000,
        status: "partial".to_string(),
        due_date: Some("2024-09-30".to_string()),
        scholarship_id: None,
        scholarship_name: None,
        scholarship_type: None,
        scholarship_value: None,
        discount_amount: None,
    }
}

fn with_scholarship() -> StudentFeeAssignmentData {
    let mut a = assignment();
    a.scholarship_id = Some("sch-1".to_string());
    a.scholarship_type = Some("percentage".to_string());
    a.scholarship_value = Some(2_000);
    a.original_amount = Some(12_500_000);
    a.discount_amount = Some(2_500_000);
    a
}

fn scholarship() -> ScholarshipData {
    ScholarshipData {
        name: "Merit".to_string(),
        scholarship_type: "percentage".to_string(),
        percentage_off: Some(2_500),
        fixed_amount_off: None,
        applicable_to: "specific_classes".to_string(),
        class_ids: Some(vec!["jss1".to_string()]),
        student_ids: None,
        start_date: "2024-01-01".to_string(),
        end_date: Some("2024-12-31".to_string()),
        status: "active".to_string(),
        created_by: "head".to_string(),
        max_beneficiaries: Some(10),
        current_beneficiaries: Some(3),
    }
}

fn create<T>(record: T) -> SetDocContext<T> {
    SetDocContext { key: String::new(), proposed: Ok(record), current: None }
}

fn reject(message: &str) -> Result<(), String> {
    Err(message.to_string())
}

fn check(a: StudentFeeAssignmentData) -> Result<(), String> {
    validate_student_fee_assignment(&create(a))
}

fn check_scholarship(s: ScholarshipData) -> Result<(), String> {
    validate_scholarship(&create(s))
}

#[test]
fn iso_dates() {
    assert_eq!(validate_iso_date("2024-02-31"), Ok(()));
    assert_eq!(validate_iso_date("1900-01-01"), Ok(()));
    assert_eq!(validate_iso_date("2100-12-31"), Ok(()));
    assert_eq!(validate_iso_date("2024-2-3"), reject("Invalid date format: 2024-2-3. Expected YYYY-MM-DD"));
    assert_eq!(validate_iso_date("2024/02/03"), reject("Invalid date format: 2024/02/03. Expected YYYY-MM-DD"));
    assert_eq!(validate_iso_date("20x4-02-03"), reject("Invalid year in date: 20x4-02-03"));
    assert_eq!(validate_iso_date("024-002-03"), reject("Invalid year in date: 024-002-03"));
    assert_eq!(validate_iso_date("2024-0x-03"), reject("Invalid month in date: 2024-0x-03"));
    assert_eq!(validate_iso_date("2024-02-0x"), reject("Invalid day in date: 2024-02-0x"));
    assert_eq!(validate_iso_date("1899-12-31"), reject("Year out of range: 1899"));
    assert_eq!(validate_iso_date("2101-01-01"), reject("Year out of range: 2101"));
    assert_eq!(validate_iso_date("2024-13-01"), reject("Month out of range: 13"));
    assert_eq!(validate_iso_date("2024-00-01"), reject("Month out of range: 0"));
    assert_eq!(validate_iso_date("2024-01-32"), reject("Day out of range: 32"));
    assert_eq!(validate_iso_date("2024-01-00"), reject("Day out of range: 0"));
}

#[test]
fn iso_dates_of_numeric_characters_that_are_no_numbers() {
    assert_eq!(validate_iso_date("²²-01-01"), reject("Invalid year in date: ²²-01-01"));
    assert_eq!(validate_iso_date("2024-²-01"), reject("Invalid month in date: 2024-²-01"));
    assert_eq!(validate_iso_date("2024-01-²"), reject("Invalid day in date: 2024-01-²"));
    // The shapes are looked at before the values.
    assert_eq!(validate_iso_date("²²-0x-01"), reject("Invalid month in date: ²²-0x-01"));
}

#[test]
fn assigned_fees_in_order_are_accepted() {
    assert_eq!(check(assignment()), Ok(()));
    assert_eq!(check(with_scholarship()), Ok(()));
}

#[test]
fn assigned_fees_that_cannot_be_read_are_rejected() {
    let context: SetDocContext<StudentFeeAssignmentData> =
        SetDocContext { key: String::new(), proposed: Err("eof".to_string()), current: None };
    assert_eq!(validate_student_fee_assignment(&context), reject("Invalid fee assignment data format: eof"));
}

#[test]
fn names_and_term_are_required() {
    let mut a = assignment();
    a.student_id = " ".to_string();
    assert_eq!(check(a), reject("studentId is required"));
    let mut a = assignment();
    a.student_name = String::new();
    assert_eq!(check(a), reject("studentName is required"));
    let mut a = assignment();
    a.class_id = String::new();
    assert_eq!(check(a), reject("classId is required"));
    let mut a = assignment();
    a.fee_structure_id = String::new();
    assert_eq!(check(a), reject("feeStructureId is required"));
    let mut a = assignment();
    a.academic_year = String::new();
    assert_eq!(check(a), reject("academicYear is required"));
    let mut a = assignment();
    a.term = "fourth".to_string();
    assert_eq!(check(a), reject("term must be 'first', 'second', or 'third'"));
}

#[test]
fn fee_items_are_in_order() {
    let mut a = assignment();
    a.fee_items = Vec::new();
    assert_eq!(check(a), reject("feeItems cannot be empty"));
    let mut a = assignment();
    a.fee_items[1].category_id = String::new();
    assert_eq!(check(a), reject("feeItem must have categoryId"));
    let mut a = assignment();
    a.fee_items[1].amount = -1;
    assert_eq!(check(a), reject("Fee item books has negative amount"));
    let mut a = assignment();
    a.fee_items[0].is_optional = Some(true);
    a.fee_items[1].amount = -1;
    assert_eq!(check(a), reject("Fee item tuition cannot be both mandatory and optional"));
    let mut a = assignment();
    a.fee_items[0].is_optional = Some(false);
    a.fee_items[1].is_mandatory = false;
    a.fee_items[1].is_optional = Some(true);
    assert_eq!(check(a), Ok(()));
}

#[test]
fn an_applied_scholarship_is_in_order() {
    let mut a = with_scholarship();
    a.scholarship_id = Some(" ".to_string());
    assert_eq!(check(a), reject("scholarshipId cannot be empty string"));
    let mut a = with_scholarship();
    a.scholarship_type = None;
    assert_eq!(check(a), reject("scholarshipType is required when scholarshipId is present"));
    let mut a = with_scholarship();
    a.scholarship_type = Some("full_waiver".to_string());
    assert_eq!(check(a), reject("scholarshipType must be 'percentage', 'fixed_amount', or 'waiver'"));
    let mut a = with_scholarship();
    a.discount_amount = None;
    assert_eq!(check(a), reject("discountAmount is required when scholarship is applied"));
    let mut a = with_scholarship();
    a.discount_amount = Some(-1);
    assert_eq!(check(a), reject("discountAmount cannot be negative"));
    let mut a = with_scholarship();
    a.original_amount = None;
    assert_eq!(check(a), reject("originalAmount is required when scholarship is applied"));
    let mut a = with_scholarship();
    a.discount_amount = Some(12_500_001);
    assert_eq!(check(a), reject("discountAmount cannot exceed originalAmount"));
    let mut a = with_scholarship();
    a.scholarship_value = None;
    assert_eq!(check(a), reject("scholarshipValue is required for percentage type"));
    let mut a = with_scholarship();
    a.scholarship_value = Some(10_001);
    assert_eq!(check(a), reject("scholarshipValue for percentage must be between 0 and 100"));
    let mut a = with_scholarship();
    a.scholarship_value = Some(-1);
    assert_eq!(check(a), reject("scholarshipValue for percentage must be between 0 and 100"));
    let mut a = with_scholarship();
    a.scholarship_type = Some("waiver".to_string());
    a.scholarship_value = None;
    assert_eq!(check(a), Ok(()));
}

#[test]
fn the_total_is_the_original_amount_less_the_discount() {
    let mut a = with_scholarship();
    a.discount_amount = Some(2_500_001);
    assert_eq!(check(a), Ok(()));
    let mut a = with_scholarship();
    a.discount_amount = Some(2_500_050);
    assert_eq!(
        check(a),
        reject("totalAmount (100000) should equal originalAmount (125000) minus discountAmount (25000.5)")
    );
}

#[test]
fn the_balance_is_the_total_less_what_was_paid() {
    let mut a = assignment();
    a.total_amount = -1;
    assert_eq!(check(a), reject("totalAmount cannot be negative"));
    let mut a = assignment();
    a.amount_paid = -1;
    assert_eq!(check(a), reject("amountPaid cannot be negative"));
    let mut a = assignment();
    a.balance = 6_000_001;
    assert_eq!(check(a), Ok(()));
    let mut a = assignment();
    a.balance = 6_000_002;
    assert_eq!(
        check(a),
        reject("balance (60000.02) must equal totalAmount (100000) minus amountPaid (40000)")
    );
    // Amounts at the ends of their range are subtracted without overflow.
    let mut a = assignment();
    a.total_amount = i64::MAX;
    a.amount_paid = 0;
    a.balance = i64::MIN;
    assert_eq!(
        check(a),
        reject(
            "balance (-92233720368547758.08) must equal totalAmount (92233720368547758.07) minus amountPaid (0)"
        )
    );
}

#[test]
fn the_status_says_what_the_amounts_say() {
    let mut a = assignment();
    a.status = "settled".to_string();
    assert_eq!(check(a), reject("status must be 'unpaid', 'partial', 'paid', or 'overpaid'"));
    let mut a = assignment();
    a.amount_paid = 0;
    a.balance = 10_000_000;
    assert_eq!(check(a.clone()), reject("status must be 'unpaid' when amountPaid is 0"));
    a.status = "unpaid".to_string();
    assert_eq!(check(a), Ok(()));
    let mut a = assignment();
    a.amount_paid = 10_000_000;
    a.balance = 0;
    assert_eq!(check(a.clone()), reject("status must be 'paid' when balance is 0"));
    a.status = "paid".to_string();
    assert_eq!(check(a), Ok(()));
    let mut a = assignment();
    a.amount_paid = 11_000_000;
    a.balance = -1_000_000;
    assert_eq!(check(a.clone()), reject("status must be 'overpaid' when balance is negative"));
    a.status = "overpaid".to_string();
    assert_eq!(check(a), Ok(()));
    let mut a = assignment();
    a.status = "paid".to_string();
    assert_eq!(check(a), reject("status must be 'partial' when partially paid"));
}

#[test]
fn the_due_date_is_a_date() {
    let mut a = assignment();
    a.due_date = Some("30-09-2024".to_string());
    assert_eq!(check(a), reject("Invalid year in date: 30-09-2024"));
    let mut a = assignment();
    a.due_date = None;
    assert_eq!(check(a), Ok(()));
}

#[test]
fn a_scholarship_in_order_is_accepted() {
    assert_eq!(check_scholarship(scholarship()), Ok(()));
    let context: SetDocContext<ScholarshipData> =
        SetDocContext { key: String::new(), proposed: Err("eof".to_string()), current: None };
    assert_eq!(validate_scholarship(&context), reject("Invalid scholarship data format: eof"));
}

#[test]
fn kind_of_a_scholarship() {
    let mut s = scholarship();
    s.name = " ".to_string();
    assert_eq!(check_scholarship(s), reject("name cannot be empty"));
    let mut s = scholarship();
    s.scholarship_type = "waiver".to_string();
    assert_eq!(check_scholarship(s), reject("type must be 'percentage', 'fixed_amount', or 'full_waiver'"));
    let mut s = scholarship();
    s.percentage_off = None;
    assert_eq!(check_scholarship(s), reject("percentageOff is required for percentage type"));
    let mut s = scholarship();
    s.percentage_off = Some(10_001);
    assert_eq!(check_scholarship(s), reject("percentageOff must be between 0 and 100"));
    let mut s = scholarship();
    s.percentage_off = Some(10_000);
    assert_eq!(check_scholarship(s), Ok(()));
    let mut s = scholarship();
    s.scholarship_type = "fixed_amount".to_string();
    assert_eq!(check_scholarship(s.clone()), reject("fixedAmountOff is required for fixed_amount type"));
    s.fixed_amount_off = Some(0);
    assert_eq!(check_scholarship(s.clone()), reject("fixedAmountOff must be greater than 0"));
    s.fixed_amount_off = Some(1);
    assert_eq!(check_scholarship(s), Ok(()));
    let mut s = scholarship();
    s.scholarship_type = "full_waiver".to_string();
    s.percentage_off = None;
    assert_eq!(check_scholarship(s), Ok(()));
}

#[test]
fn scope_of_a_scholarship() {
    let mut s = scholarship();
    s.applicable_to = "some".to_string();
    assert_eq!(
        check_scholarship(s),
        reject("applicableTo must be 'all', 'specific_classes', or 'specific_students'")
    );
    let mut s = scholarship();
    s.class_ids = None;
    assert_eq!(check_scholarship(s), reject("classIds is required when applicableTo is 'specific_classes'"));
    let mut s = scholarship();
    s.class_ids = Some(Vec::new());
    assert_eq!(check_scholarship(s), reject("classIds cannot be empty for specific_classes"));
    let mut s = scholarship();
    s.applicable_to = "specific_students".to_string();
    assert_eq!(
        check_scholarship(s.clone()),
        reject("studentIds is required when applicableTo is 'specific_students'")
    );
    s.student_ids = Some(Vec::new());
    assert_eq!(check_scholarship(s.clone()), reject("studentIds cannot be empty for specific_students"));
    s.student_ids = Some(vec!["s1".to_string()]);
    assert_eq!(check_scholarship(s), Ok(()));
    let mut s = scholarship();
    s.applicable_to = "all".to_string();
    s.class_ids = None;
    assert_eq!(check_scholarship(s), Ok(()));
}

#[test]
fn dates_of_a_scholarship() {
    let mut s = scholarship();
    s.start_date = "2024-1-1".to_string();
    assert_eq!(check_scholarship(s), reject("Invalid date format: 2024-1-1. Expected YYYY-MM-DD"));
    let mut s = scholarship();
    s.end_date = Some("2024-13-01".to_string());
    assert_eq!(check_scholarship(s), reject("Month out of range: 13"));
    let mut s = scholarship();
    s.end_date = Some("2024-01-01".to_string());
    assert_eq!(check_scholarship(s), reject("endDate must be after startDate"));
    let mut s = scholarship();
    s.end_date = Some("2023-12-31".to_string());
    assert_eq!(check_scholarship(s), reject("endDate must be after startDate"));
    let mut s = scholarship();
    s.end_date = Some("2024-01-02".to_string());
    assert_eq!(check_scholarship(s), Ok(()));
    let mut s = scholarship();
    s.end_date = None;
    assert_eq!(check_scholarship(s), Ok(()));
}

#[test]
fn limit_and_status_of_a_scholarship() {
    let mut s = scholarship();
    s.max_beneficiaries = Some(0);
    assert_eq!(check_scholarship(s), reject("maxBeneficiaries must be at least 1"));
    let mut s = scholarship();
    s.current_beneficiaries = Some(11);
    assert_eq!(check_scholarship(s), reject("currentBeneficiaries cannot exceed maxBeneficiaries"));
    let mut s = scholarship();
    s.current_beneficiaries = None;
    assert_eq!(check_scholarship(s), Ok(()));
    let mut s = scholarship();
    s.max_beneficiaries = None;
    s.current_beneficiaries = Some(1_000);
    assert_eq!(check_scholarship(s), Ok(()));
    let mut s = scholarship();
    s.status = "ended".to_string();
    assert_eq!(check_scholarship(s), reject("status must be 'active', 'suspended', or 'expired'"));
    let mut s = scholarship();
    s.created_by = String::new();
    assert_eq!(check_scholarship(s), reject("createdBy cannot be empty"));
}
