//! Fees assigned to students, and scholarships.
//!
//! Amounts are in hundredths of the currency unit and percentages in
//! hundredths of a percent: 100 % is `10_000`.

use vstd::prelude::*;
use crate::context::SetDocContext;
use crate::money::agree;
use crate::money::push_short;
use crate::money::short_text;
use crate::text::byte_len;
use crate::text::byte_length;
use crate::text::chars_of;
use crate::text::decimal_text;
use crate::text::every_char_is;
use crate::text::is_blank;
use crate::text::is_one_of;
use crate::text::literal_views;
use crate::text::parse_u32;
use crate::text::push_decimal;
use crate::text::split_chars;
use crate::text::split_on;
use crate::text::str_equal;
use crate::text::str_is_blank;
use crate::text::str_le;
use crate::text::text_le;
use crate::text::u32_value;
use crate::text::views_of;
use crate::text::CharClass;
use crate::validation_utils::numeric_field;
use crate::verdict::and_then;
use crate::verdict::outcome;
use crate::verdict::quote;
use crate::verdict::quoting;
use crate::verdict::reject_if;
use crate::verdict::rejection;
use crate::verdict::unreadable;
use crate::verdict::Verdict;

verus! {

/// The fees assigned to one student for one term.
#[derive(Clone, Debug)]
pub struct StudentFeeAssignmentData {
    pub student_id: String,
    pub student_name: String,
    pub class_id: String,
    pub fee_structure_id: String,
    pub academic_year: String,
    pub term: String,
    pub fee_items: Vec<FeeItemData>,
    pub original_amount: Option<i64>,
    pub total_amount: i64,
    pub amount_paid: i64,
    pub balance: i64,
    pub status: String,
    pub due_date: Option<String>,
    pub scholarship_id: Option<String>,
    pub scholarship_name: Option<String>,
    pub scholarship_type: Option<String>,
    pub scholarship_value: Option<i64>,
    pub discount_amount: Option<i64>,
}

/// One fee among those assigned to a student.
#[derive(Clone, Debug)]
pub struct FeeItemData {
    pub category_id: String,
    pub category_name: String,
    pub fee_type: String,
    pub amount: i64,
    pub amount_paid: i64,
    pub balance: i64,
    pub is_mandatory: bool,
    pub is_optional: Option<bool>,
    pub is_selected: Option<bool>,
}

/// A scholarship.
#[derive(Clone, Debug)]
pub struct ScholarshipData {
    pub name: String,
    pub scholarship_type: String,
    pub percentage_off: Option<i64>,
    pub fixed_amount_off: Option<i64>,
    pub applicable_to: String,
    pub class_ids: Option<Vec<String>>,
    pub student_ids: Option<Vec<String>>,
    pub start_date: String,
    pub end_date: Option<String>,
    pub status: String,
    pub created_by: String,
    pub max_beneficiaries: Option<i64>,
    pub current_beneficiaries: Option<i64>,
}

/// A hundred percent, in hundredths of a percent.
pub const FULL_PERCENTAGE: i64 = 10_000;

/// The first year that a date may lie in.
pub const MIN_YEAR: u32 = 1900;

/// The last year that a date may lie in.
pub const MAX_YEAR: u32 = 2100;

// ---------------------------------------------------------------------------
// Dates
// ---------------------------------------------------------------------------

/// A date in the form `YYYY-MM-DD`: ten bytes in three parts of four, two
/// and two numeric bytes that are numbers, the year from 1900 to 2100, the
/// month from 1 to 12, the day from 1 to 31. Each fault has its own
/// rejection, which quotes the date or the number at fault; the shapes of
/// the three parts are looked at before their values.
pub open spec fn iso_date_verdict(date: Seq<char>) -> Verdict {
    let parts = split_on(date, '-');
    if byte_len(date) != 10 || parts.len() != 3 {
        Err(quoting("Invalid date format: "@, date, ". Expected YYYY-MM-DD"@))
    } else if !numeric_field(parts[0], 4) {
        Err("Invalid year in date: "@ + date)
    } else if !numeric_field(parts[1], 2) {
        Err("Invalid month in date: "@ + date)
    } else if !numeric_field(parts[2], 2) {
        Err("Invalid day in date: "@ + date)
    } else if u32_value(parts[0]) is None {
        Err("Invalid year in date: "@ + date)
    } else if u32_value(parts[1]) is None {
        Err("Invalid month in date: "@ + date)
    } else if u32_value(parts[2]) is None {
        Err("Invalid day in date: "@ + date)
    } else {
        let year = u32_value(parts[0])->0;
        let month = u32_value(parts[1])->0;
        let day = u32_value(parts[2])->0;
        if year < MIN_YEAR || year > MAX_YEAR {
            Err("Year out of range: "@ + decimal_text(year as nat))
        } else if month < 1 || month > 12 {
            Err("Month out of range: "@ + decimal_text(month as nat))
        } else if day < 1 || day > 31 {
            Err("Day out of range: "@ + decimal_text(day as nat))
        } else {
            Ok(())
        }
    }
}

fn is_numeric_part(part: &Vec<char>, width: u128) -> (r: bool)
    ensures
        r == numeric_field(part@, width as nat),
{
    byte_length(part) == width && every_char_is(part, CharClass::Numeric)
}

fn out_of_range(what: &str, value: u32) -> (res: Result<(), String>)
    ensures
        outcome(res) == Err::<(), Seq<char>>(what@ + decimal_text(value as nat)),
{
    let mut message = what.to_string();
    push_decimal(&mut message, value as u128);
    Err(message)
}

fn unreadable_part(what: &str, date: &str) -> (res: Result<(), String>)
    ensures
        outcome(res) == Err::<(), Seq<char>>(what@ + date@),
{
    let mut message = what.to_string();
    message.append(date);
    Err(message)
}

/// Checks that `date` is a date in the form `YYYY-MM-DD`.
pub fn validate_iso_date(date: &str) -> (res: Result<(), String>)
    ensures
        outcome(res) == iso_date_verdict(date@),
{
    let cs = chars_of(date);
    if byte_length(&cs) != 10 {
        return Err(quote("Invalid date format: ", date, ". Expected YYYY-MM-DD"));
    }
    let parts = split_chars(&cs, '-');
    proof {
        assert(views_of(parts@).len() == parts@.len());
    }
    if parts.len() != 3 {
        return Err(quote("Invalid date format: ", date, ". Expected YYYY-MM-DD"));
    }
    proof {
        assert(views_of(parts@)[0] == parts@[0]@);
        assert(views_of(parts@)[1] == parts@[1]@);
        assert(views_of(parts@)[2] == parts@[2]@);
    }
    if !is_numeric_part(&parts[0], 4) {
        return unreadable_part("Invalid year in date: ", date);
    }
    if !is_numeric_part(&parts[1], 2) {
        return unreadable_part("Invalid month in date: ", date);
    }
    if !is_numeric_part(&parts[2], 2) {
        return unreadable_part("Invalid day in date: ", date);
    }
    let year = match parse_u32(&parts[0]) {
        Some(v) => v,
        None => {
            return unreadable_part("Invalid year in date: ", date);
        },
    };
    let month = match parse_u32(&parts[1]) {
        Some(v) => v,
        None => {
            return unreadable_part("Invalid month in date: ", date);
        },
    };
    let day = match parse_u32(&parts[2]) {
        Some(v) => v,
        None => {
            return unreadable_part("Invalid day in date: ", date);
        },
    };
    if year < MIN_YEAR || year > MAX_YEAR {
        return out_of_range("Year out of range: ", year);
    }
    if month < 1 || month > 12 {
        return out_of_range("Month out of range: ", month);
    }
    if day < 1 || day > 31 {
        return out_of_range("Day out of range: ", day);
    }
    Ok(())
}

// ---------------------------------------------------------------------------
// Fees assigned to a student
// ---------------------------------------------------------------------------

/// The terms of a school year.
pub open spec fn terms() -> Seq<Seq<char>> {
    seq!["first"@, "second"@, "third"@]
}

/// The student, the class, the fee structure and the year are named, and
/// the term is one of the three.
pub open spec fn assignment_identity_verdict(data: StudentFeeAssignmentData) -> Verdict {
    if is_blank(data.student_id@) {
        Err("studentId is required"@)
    } else if is_blank(data.student_name@) {
        Err("studentName is required"@)
    } else if is_blank(data.class_id@) {
        Err("classId is required"@)
    } else if is_blank(data.fee_structure_id@) {
        Err("feeStructureId is required"@)
    } else if is_blank(data.academic_year@) {
        Err("academicYear is required"@)
    } else if !terms().contains(data.term@) {
        Err("term must be 'first', 'second', or 'third'"@)
    } else {
        Ok(())
    }
}

/// A fee names its category, has no negative amount, and is not both
/// mandatory and optional.
pub open spec fn fee_item_verdict(item: FeeItemData) -> Verdict {
    if is_blank(item.category_id@) {
        Err("feeItem must have categoryId"@)
    } else if item.amount < 0 {
        Err(quoting("Fee item "@, item.category_id@, " has negative amount"@))
    } else if item.is_mandatory && item.is_optional == Some(true) {
        Err(quoting("Fee item "@, item.category_id@, " cannot be both mandatory and optional"@))
    } else {
        Ok(())
    }
}

/// The rejection of the first fee in `items` that has a fault.
pub open spec fn each_fee_item_verdict(items: Seq<FeeItemData>) -> Verdict
    decreases items.len(),
{
    if items.len() == 0 {
        Ok(())
    } else {
        and_then(each_fee_item_verdict(items.drop_last()), fee_item_verdict(items.last()))
    }
}

/// There is a fee at least, and every fee is in order.
pub open spec fn fee_items_verdict(data: StudentFeeAssignmentData) -> Verdict {
    if data.fee_items@.len() == 0 {
        Err("feeItems cannot be empty"@)
    } else {
        each_fee_item_verdict(data.fee_items@)
    }
}

/// The kinds of scholarship that can be applied to fees.
pub open spec fn applied_scholarship_types() -> Seq<Seq<char>> {
    seq!["percentage"@, "fixed_amount"@, "waiver"@]
}

/// The rejection of a total that is not the original amount less the
/// discount: it quotes the three amounts.
pub open spec fn total_message(total: int, original: int, discount: int) -> Seq<char> {
    "totalAmount ("@ + short_text(total) + ") should equal originalAmount ("@ + short_text(original)
        + ") minus discountAmount ("@ + short_text(discount) + ")"@
}

/// A scholarship by percentage gives its percentage, from 0 to 100.
pub open spec fn scholarship_value_verdict(kind: Seq<char>, value: Option<i64>) -> Verdict {
    if kind == "percentage"@ {
        match value {
            None => Err("scholarshipValue is required for percentage type"@),
            Some(percentage) => reject_if(
                percentage < 0 || percentage > FULL_PERCENTAGE,
                "scholarshipValue for percentage must be between 0 and 100"@,
            ),
        }
    } else {
        Ok(())
    }
}

/// The amounts of an applied scholarship: the discount is not negative and
/// not above the original amount, and the total is the original amount less
/// the discount, within the tolerance.
pub open spec fn scholarship_amounts_verdict(data: StudentFeeAssignmentData, kind: Seq<char>) -> Verdict {
    match data.discount_amount {
        None => Err("discountAmount is required when scholarship is applied"@),
        Some(discount) => if discount < 0 {
            Err("discountAmount cannot be negative"@)
        } else {
            match data.original_amount {
                None => Err("originalAmount is required when scholarship is applied"@),
                Some(original) => if discount > original {
                    Err("discountAmount cannot exceed originalAmount"@)
                } else {
                    and_then(
                        scholarship_value_verdict(kind, data.scholarship_value),
                        reject_if(
                            !agree(data.total_amount as int, original - discount),
                            total_message(
                                data.total_amount as int,
                                original as int,
                                discount as int,
                            ),
                        ),
                    )
                },
            }
        },
    }
}

/// Where a scholarship is applied, it is named, its kind is a known one,
/// and its amounts are in order.
pub open spec fn applied_scholarship_verdict(data: StudentFeeAssignmentData) -> Verdict {
    match data.scholarship_id {
        None => Ok(()),
        Some(id) => if is_blank(id@) {
            Err("scholarshipId cannot be empty string"@)
        } else {
            match data.scholarship_type {
                None => Err("scholarshipType is required when scholarshipId is present"@),
                Some(kind) => if !applied_scholarship_types().contains(kind@) {
                    Err("scholarshipType must be 'percentage', 'fixed_amount', or 'waiver'"@)
                } else {
                    scholarship_amounts_verdict(data, kind@)
                },
            }
        },
    }
}

/// The rejection of a balance that is not the total less what was paid: it
/// quotes the three amounts.
pub open spec fn balance_message(balance: int, total: int, paid: int) -> Seq<char> {
    "balance ("@ + short_text(balance) + ") must equal totalAmount ("@ + short_text(total)
        + ") minus amountPaid ("@ + short_text(paid) + ")"@
}

/// Neither the total nor what was paid is negative, and the balance is the
/// total less what was paid, within the tolerance.
pub open spec fn balance_verdict(data: StudentFeeAssignmentData) -> Verdict {
    if data.total_amount < 0 {
        Err("totalAmount cannot be negative"@)
    } else if data.amount_paid < 0 {
        Err("amountPaid cannot be negative"@)
    } else {
        reject_if(
            !agree(data.balance as int, data.total_amount - data.amount_paid),
            balance_message(data.balance as int, data.total_amount as int, data.amount_paid as int),
        )
    }
}

/// The statuses of assigned fees.
pub open spec fn assignment_statuses() -> Seq<Seq<char>> {
    seq!["unpaid"@, "partial"@, "paid"@, "overpaid"@]
}

/// The status is a known one and says what the amounts say: unpaid where
/// nothing was paid, paid where nothing is owed, overpaid where the balance
/// is negative, partial where something was paid and something is owed.
pub open spec fn assignment_status_verdict(data: StudentFeeAssignmentData) -> Verdict {
    let status = data.status@;
    if !assignment_statuses().contains(status) {
        Err("status must be 'unpaid', 'partial', 'paid', or 'overpaid'"@)
    } else if data.amount_paid == 0 && status != "unpaid"@ {
        Err("status must be 'unpaid' when amountPaid is 0"@)
    } else if data.balance == 0 && status != "paid"@ {
        Err("status must be 'paid' when balance is 0"@)
    } else if data.balance < 0 && status != "overpaid"@ {
        Err("status must be 'overpaid' when balance is negative"@)
    } else if data.amount_paid > 0 && data.balance > 0 && status != "partial"@ {
        Err("status must be 'partial' when partially paid"@)
    } else {
        Ok(())
    }
}

/// The day by which the fees are due, where one is given, is a date.
pub open spec fn due_date_verdict(data: StudentFeeAssignmentData) -> Verdict {
    match data.due_date {
        Some(date) => iso_date_verdict(date@),
        None => Ok(()),
    }
}

/// The verdict on a write of assigned fees: a record that cannot be read is
/// rejected with the decoder's words; else the first of these that fails
/// rejects: the names and the term, the fees, the scholarship, the balance,
/// the status, the due date.
pub open spec fn fee_assignment_verdict(context: SetDocContext<StudentFeeAssignmentData>) -> Verdict {
    match context.proposed {
        Err(failure) => Err("Invalid fee assignment data format: "@ + failure@),
        Ok(data) => and_then(
            assignment_identity_verdict(data),
            and_then(
                fee_items_verdict(data),
                and_then(
                    applied_scholarship_verdict(data),
                    and_then(
                        balance_verdict(data),
                        and_then(assignment_status_verdict(data), due_date_verdict(data)),
                    ),
                ),
            ),
        ),
    }
}

/// Accepted fees reconcile: the balance is the total less what was paid,
/// and where a scholarship is applied the total is the original amount less
/// the discount, each within the tolerance.
pub proof fn lemma_accepted_assignment_reconciles(context: SetDocContext<StudentFeeAssignmentData>)
    requires
        fee_assignment_verdict(context) is Ok,
    ensures
        context.proposed is Ok,
        agree(
            context.proposed->Ok_0.balance as int,
            context.proposed->Ok_0.total_amount - context.proposed->Ok_0.amount_paid,
        ),
        context.proposed->Ok_0.scholarship_id is Some
            ==> context.proposed->Ok_0.original_amount is Some
            && context.proposed->Ok_0.discount_amount is Some && agree(
            context.proposed->Ok_0.total_amount as int,
            context.proposed->Ok_0.original_amount->0 - context.proposed->Ok_0.discount_amount->0,
        ),
{
}

fn check_assignment_identity(data: &StudentFeeAssignmentData) -> (res: Result<(), String>)
    ensures
        outcome(res) == assignment_identity_verdict(*data),
{
    if str_is_blank(data.student_id.as_str()) {
        return rejection("studentId is required");
    }
    if str_is_blank(data.student_name.as_str()) {
        return rejection("studentName is required");
    }
    if str_is_blank(data.class_id.as_str()) {
        return rejection("classId is required");
    }
    if str_is_blank(data.fee_structure_id.as_str()) {
        return rejection("feeStructureId is required");
    }
    if str_is_blank(data.academic_year.as_str()) {
        return rejection("academicYear is required");
    }
    let all: Vec<&'static str> = vec!["first", "second", "third"];
    proof {
        assert(literal_views(all@) =~= terms());
    }
    if !is_one_of(data.term.as_str(), &all) {
        return rejection("term must be 'first', 'second', or 'third'");
    }
    Ok(())
}

fn check_fee_item(item: &FeeItemData) -> (res: Result<(), String>)
    ensures
        outcome(res) == fee_item_verdict(*item),
{
    if str_is_blank(item.category_id.as_str()) {
        return rejection("feeItem must have categoryId");
    }
    if item.amount < 0 {
        return Err(quote("Fee item ", item.category_id.as_str(), " has negative amount"));
    }
    let optional = match item.is_optional {
        Some(flag) => flag,
        None => false,
    };
    if item.is_mandatory && optional {
        return Err(
            quote("Fee item ", item.category_id.as_str(), " cannot be both mandatory and optional"),
        );
    }
    Ok(())
}

proof fn lemma_first_fee_fault_stays(items: Seq<FeeItemData>, k: int)
    requires
        0 <= k <= items.len(),
        each_fee_item_verdict(items.take(k)) is Err,
    ensures
        each_fee_item_verdict(items) == each_fee_item_verdict(items.take(k)),
    decreases items.len() - k,
{
    if k == items.len() {
        assert(items.take(k) =~= items);
    } else {
        assert(items.drop_last().take(k) =~= items.take(k));
        lemma_first_fee_fault_stays(items.drop_last(), k);
    }
}

fn check_fee_items(data: &StudentFeeAssignmentData) -> (res: Result<(), String>)
    ensures
        outcome(res) == fee_items_verdict(*data),
{
    let items = &data.fee_items;
    if items.len() == 0 {
        return rejection("feeItems cannot be empty");
    }
    let mut i: usize = 0;
    while i < items.len()
        invariant
            i <= items.len(),
            0 < items.len(),
            items@ == data.fee_items@,
            each_fee_item_verdict(items@.take(i as int)) is Ok,
        decreases items.len() - i,
    {
        proof {
            assert(items@.take(i + 1).drop_last() =~= items@.take(i as int));
            assert(items@.take(i + 1).last() == items@[i as int]);
        }
        match check_fee_item(&items[i]) {
            Err(message) => {
                proof {
                    lemma_first_fee_fault_stays(items@, i + 1);
                }
                return Err(message);
            },
            Ok(_) => {},
        }
        i = i + 1;
    }
    proof {
        assert(items@.take(items.len() as int) =~= items@);
    }
    Ok(())
}

fn check_scholarship_value(kind: &str, value: Option<i64>) -> (res: Result<(), String>)
    ensures
        outcome(res) == scholarship_value_verdict(kind@, value),
{
    if str_equal(kind, "percentage") {
        match value {
            None => rejection("scholarshipValue is required for percentage type"),
            Some(percentage) => {
                if percentage < 0 || percentage > FULL_PERCENTAGE {
                    return rejection("scholarshipValue for percentage must be between 0 and 100");
                }
                Ok(())
            },
        }
    } else {
        Ok(())
    }
}

fn check_scholarship_amounts(data: &StudentFeeAssignmentData, kind: &str) -> (res: Result<(), String>)
    ensures
        outcome(res) == scholarship_amounts_verdict(*data, kind@),
{
    let discount = match data.discount_amount {
        None => {
            return rejection("discountAmount is required when scholarship is applied");
        },
        Some(discount) => discount,
    };
    if discount < 0 {
        return rejection("discountAmount cannot be negative");
    }
    let original = match data.original_amount {
        None => {
            return rejection("originalAmount is required when scholarship is applied");
        },
        Some(original) => original,
    };
    if discount > original {
        return rejection("discountAmount cannot exceed originalAmount");
    }
    match check_scholarship_value(kind, data.scholarship_value) {
        Err(message) => {
            return Err(message);
        },
        Ok(_) => {},
    }
    let gap: i128 = data.total_amount as i128 - (original as i128 - discount as i128);
    if gap < -1 || gap > 1 {
        let mut message = "totalAmount (".to_string();
        push_short(&mut message, data.total_amount);
        message.append(") should equal originalAmount (");
        push_short(&mut message, original);
        message.append(") minus discountAmount (");
        push_short(&mut message, discount);
        message.append(")");
        return Err(message);
    }
    Ok(())
}

fn check_applied_scholarship(data: &StudentFeeAssignmentData) -> (res: Result<(), String>)
    ensures
        outcome(res) == applied_scholarship_verdict(*data),
{
    match &data.scholarship_id {
        None => Ok(()),
        Some(id) => {
            if str_is_blank(id.as_str()) {
                return rejection("scholarshipId cannot be empty string");
            }
            match &data.scholarship_type {
                None => rejection("scholarshipType is required when scholarshipId is present"),
                Some(kind) => {
                    let kinds: Vec<&'static str> = vec!["percentage", "fixed_amount", "waiver"];
                    proof {
                        assert(literal_views(kinds@) =~= applied_scholarship_types());
                    }
                    if !is_one_of(kind.as_str(), &kinds) {
                        return rejection(
                            "scholarshipType must be 'percentage', 'fixed_amount', or 'waiver'",
                        );
                    }
                    check_scholarship_amounts(data, kind.as_str())
                },
            }
        },
    }
}

fn check_balance(data: &StudentFeeAssignmentData) -> (res: Result<(), String>)
    ensures
        outcome(res) == balance_verdict(*data),
{
    if data.total_amount < 0 {
        return rejection("totalAmount cannot be negative");
    }
    if data.amount_paid < 0 {
        return rejection("amountPaid cannot be negative");
    }
    let gap: i128 = data.balance as i128 - (data.total_amount as i128 - data.amount_paid as i128);
    if gap < -1 || gap > 1 {
        let mut message = "balance (".to_string();
        push_short(&mut message, data.balance);
        message.append(") must equal totalAmount (");
        push_short(&mut message, data.total_amount);
        message.append(") minus amountPaid (");
        push_short(&mut message, data.amount_paid);
        message.append(")");
        return Err(message);
    }
    Ok(())
}

fn check_assignment_status(data: &StudentFeeAssignmentData) -> (res: Result<(), String>)
    ensures
        outcome(res) == assignment_status_verdict(*data),
{
    let status = data.status.as_str();
    let all: Vec<&'static str> = vec!["unpaid", "partial", "paid", "overpaid"];
    proof {
        assert(literal_views(all@) =~= assignment_statuses());
    }
    if !is_one_of(status, &all) {
        return rejection("status must be 'unpaid', 'partial', 'paid', or 'overpaid'");
    }
    if data.amount_paid == 0 && !str_equal(status, "unpaid") {
        return rejection("status must be 'unpaid' when amountPaid is 0");
    }
    if data.balance == 0 && !str_equal(status, "paid") {
        return rejection("status must be 'paid' when balance is 0");
    }
    if data.balance < 0 && !str_equal(status, "overpaid") {
        return rejection("status must be 'overpaid' when balance is negative");
    }
    if data.amount_paid > 0 && data.balance > 0 && !str_equal(status, "partial") {
        return rejection("status must be 'partial' when partially paid");
    }
    Ok(())
}

/// Decides on a write of the fees assigned to a student.
pub fn validate_student_fee_assignment(context: &SetDocContext<StudentFeeAssignmentData>) -> (res:
    Result<(), String>)
    ensures
        outcome(res) == fee_assignment_verdict(*context),
{
    match &context.proposed {
        Err(failure) => unreadable("Invalid fee assignment data format: ", failure),
        Ok(data) => {
            match check_assignment_identity(data) {
                Err(message) => {
                    return Err(message);
                },
                Ok(_) => {},
            }
            match check_fee_items(data) {
                Err(message) => {
                    return Err(message);
                },
                Ok(_) => {},
            }
            match check_applied_scholarship(data) {
                Err(message) => {
                    return Err(message);
                },
                Ok(_) => {},
            }
            match check_balance(data) {
                Err(message) => {
                    return Err(message);
                },
                Ok(_) => {},
            }
            match check_assignment_status(data) {
                Err(message) => {
                    return Err(message);
                },
                Ok(_) => {},
            }
            match &data.due_date {
                Some(date) => validate_iso_date(date.as_str()),
                None => Ok(()),
            }
        },
    }
}

// ---------------------------------------------------------------------------
// Scholarships
// ---------------------------------------------------------------------------

/// The kinds of scholarship.
pub open spec fn scholarship_types() -> Seq<Seq<char>> {
    seq!["percentage"@, "fixed_amount"@, "full_waiver"@]
}

/// Whom a scholarship can be for.
pub open spec fn scholarship_scopes() -> Seq<Seq<char>> {
    seq!["all"@, "specific_classes"@, "specific_students"@]
}

/// The statuses of a scholarship.
pub open spec fn scholarship_statuses() -> Seq<Seq<char>> {
    seq!["active"@, "suspended"@, "expired"@]
}

/// A scholarship is named and its kind is a known one; one by percentage
/// gives a percentage from 0 to 100, one by amount a positive amount.
pub open spec fn scholarship_kind_verdict(data: ScholarshipData) -> Verdict {
    let kind = data.scholarship_type@;
    if is_blank(data.name@) {
        Err("name cannot be empty"@)
    } else if !scholarship_types().contains(kind) {
        Err("type must be 'percentage', 'fixed_amount', or 'full_waiver'"@)
    } else if kind == "percentage"@ && data.percentage_off is None {
        Err("percentageOff is required for percentage type"@)
    } else if kind == "percentage"@ && (data.percentage_off->0 < 0 || data.percentage_off->0
        > FULL_PERCENTAGE) {
        Err("percentageOff must be between 0 and 100"@)
    } else if kind == "fixed_amount"@ && data.fixed_amount_off is None {
        Err("fixedAmountOff is required for fixed_amount type"@)
    } else if kind == "fixed_amount"@ && data.fixed_amount_off->0 <= 0 {
        Err("fixedAmountOff must be greater than 0"@)
    } else {
        Ok(())
    }
}

/// A list that is absent or empty.
pub open spec fn lacks_entries(list: Option<Vec<String>>) -> bool {
    match list {
        Some(entries) => entries@.len() == 0,
        None => true,
    }
}

/// The scope of a scholarship is a known one; one for classes lists a class
/// at least, one for students a student at least.
pub open spec fn scholarship_scope_verdict(data: ScholarshipData) -> Verdict {
    let scope = data.applicable_to@;
    if !scholarship_scopes().contains(scope) {
        Err("applicableTo must be 'all', 'specific_classes', or 'specific_students'"@)
    } else if scope == "specific_classes"@ && data.class_ids is None {
        Err("classIds is required when applicableTo is 'specific_classes'"@)
    } else if scope == "specific_classes"@ && lacks_entries(data.class_ids) {
        Err("classIds cannot be empty for specific_classes"@)
    } else if scope == "specific_students"@ && data.student_ids is None {
        Err("studentIds is required when applicableTo is 'specific_students'"@)
    } else if scope == "specific_students"@ && lacks_entries(data.student_ids) {
        Err("studentIds cannot be empty for specific_students"@)
    } else {
        Ok(())
    }
}

/// The first day of a scholarship is a date; the last day, where one is
/// given, is a date and comes after the first.
pub open spec fn scholarship_dates_verdict(data: ScholarshipData) -> Verdict {
    and_then(
        iso_date_verdict(data.start_date@),
        match data.end_date {
            Some(end) => and_then(
                iso_date_verdict(end@),
                reject_if(text_le(end@, data.start_date@), "endDate must be after startDate"@),
            ),
            None => Ok(()),
        },
    )
}

/// The number of those who hold the scholarship, where none is given, is 0.
pub open spec fn beneficiaries(data: ScholarshipData) -> i64 {
    match data.current_beneficiaries {
        Some(count) => count,
        None => 0,
    }
}

/// Where a scholarship is limited to a number of holders, the limit is one
/// at least and the holders are no more than the limit.
pub open spec fn scholarship_limit_verdict(data: ScholarshipData) -> Verdict {
    match data.max_beneficiaries {
        Some(limit) => if limit < 1 {
            Err("maxBeneficiaries must be at least 1"@)
        } else {
            reject_if(
                beneficiaries(data) > limit,
                "currentBeneficiaries cannot exceed maxBeneficiaries"@,
            )
        },
        None => Ok(()),
    }
}

/// The status of a scholarship is a known one, and its author is named.
pub open spec fn scholarship_status_verdict(data: ScholarshipData) -> Verdict {
    if !scholarship_statuses().contains(data.status@) {
        Err("status must be 'active', 'suspended', or 'expired'"@)
    } else {
        reject_if(is_blank(data.created_by@), "createdBy cannot be empty"@)
    }
}

/// The verdict on a write of a scholarship: a record that cannot be read is
/// rejected with the decoder's words; else the first of these that fails
/// rejects: the kind, the scope, the dates, the limit, the status.
pub open spec fn scholarship_verdict(context: SetDocContext<ScholarshipData>) -> Verdict {
    match context.proposed {
        Err(failure) => Err("Invalid scholarship data format: "@ + failure@),
        Ok(data) => and_then(
            scholarship_kind_verdict(data),
            and_then(
                scholarship_scope_verdict(data),
                and_then(
                    scholarship_dates_verdict(data),
                    and_then(scholarship_limit_verdict(data), scholarship_status_verdict(data)),
                ),
            ),
        ),
    }
}

fn check_scholarship_kind(data: &ScholarshipData) -> (res: Result<(), String>)
    ensures
        outcome(res) == scholarship_kind_verdict(*data),
{
    if str_is_blank(data.name.as_str()) {
        return rejection("name cannot be empty");
    }
    let kind = data.scholarship_type.as_str();
    let kinds: Vec<&'static str> = vec!["percentage", "fixed_amount", "full_waiver"];
    proof {
        assert(literal_views(kinds@) =~= scholarship_types());
    }
    if !is_one_of(kind, &kinds) {
        return rejection("type must be 'percentage', 'fixed_amount', or 'full_waiver'");
    }
    if str_equal(kind, "percentage") {
        match data.percentage_off {
            None => {
                return rejection("percentageOff is required for percentage type");
            },
            Some(percentage) => {
                if percentage < 0 || percentage > FULL_PERCENTAGE {
                    return rejection("percentageOff must be between 0 and 100");
                }
            },
        }
    }
    if str_equal(kind, "fixed_amount") {
        match data.fixed_amount_off {
            None => {
                return rejection("fixedAmountOff is required for fixed_amount type");
            },
            Some(amount) => {
                if amount <= 0 {
                    return rejection("fixedAmountOff must be greater than 0");
                }
            },
        }
    }
    Ok(())
}

fn is_lacking_entries(list: &Option<Vec<String>>) -> (r: bool)
    ensures
        r == lacks_entries(*list),
{
    match list {
        Some(entries) => entries.len() == 0,
        None => true,
    }
}

fn check_scholarship_scope(data: &ScholarshipData) -> (res: Result<(), String>)
    ensures
        outcome(res) == scholarship_scope_verdict(*data),
{
    let scope = data.applicable_to.as_str();
    let scopes: Vec<&'static str> = vec!["all", "specific_classes", "specific_students"];
    proof {
        assert(literal_views(scopes@) =~= scholarship_scopes());
    }
    if !is_one_of(scope, &scopes) {
        return rejection("applicableTo must be 'all', 'specific_classes', or 'specific_students'");
    }
    if str_equal(scope, "specific_classes") {
        if data.class_ids.is_none() {
            return rejection("classIds is required when applicableTo is 'specific_classes'");
        }
        if is_lacking_entries(&data.class_ids) {
            return rejection("classIds cannot be empty for specific_classes");
        }
    }
    if str_equal(scope, "specific_students") {
        if data.student_ids.is_none() {
            return rejection("studentIds is required when applicableTo is 'specific_students'");
        }
        if is_lacking_entries(&data.student_ids) {
            return rejection("studentIds cannot be empty for specific_students");
        }
    }
    Ok(())
}

fn check_scholarship_dates(data: &ScholarshipData) -> (res: Result<(), String>)
    ensures
        outcome(res) == scholarship_dates_verdict(*data),
{
    match validate_iso_date(data.start_date.as_str()) {
        Err(message) => {
            return Err(message);
        },
        Ok(_) => {},
    }
    match &data.end_date {
        Some(end) => {
            match validate_iso_date(end.as_str()) {
                Err(message) => {
                    return Err(message);
                },
                Ok(_) => {},
            }
            if str_le(end.as_str(), data.start_date.as_str()) {
                return rejection("endDate must be after startDate");
            }
            Ok(())
        },
        None => Ok(()),
    }
}

fn check_scholarship_limit(data: &ScholarshipData) -> (res: Result<(), String>)
    ensures
        outcome(res) == scholarship_limit_verdict(*data),
{
    match data.max_beneficiaries {
        Some(limit) => {
            if limit < 1 {
                return rejection("maxBeneficiaries must be at least 1");
            }
            let holders = match data.current_beneficiaries {
                Some(count) => count,
                None => 0,
            };
            if holders > limit {
                return rejection("currentBeneficiaries cannot exceed maxBeneficiaries");
            }
            Ok(())
        },
        None => Ok(()),
    }
}

fn check_scholarship_status(data: &ScholarshipData) -> (res: Result<(), String>)
    ensures
        outcome(res) == scholarship_status_verdict(*data),
{
    let all: Vec<&'static str> = vec!["active", "suspended", "expired"];
    proof {
        assert(literal_views(all@) =~= scholarship_statuses());
    }
    if !is_one_of(data.status.as_str(), &all) {
        return rejection("status must be 'active', 'suspended', or 'expired'");
    }
    if str_is_blank(data.created_by.as_str()) {
        return rejection("createdBy cannot be empty");
    }
    Ok(())
}

/// Decides on a write of a scholarship.
pub fn validate_scholarship(context: &SetDocContext<ScholarshipData>) -> (res: Result<(), String>)
    ensures
        outcome(res) == scholarship_verdict(*context),
{
    match &context.proposed {
        Err(failure) => unreadable("Invalid scholarship data format: ", failure),
        Ok(data) => {
            match check_scholarship_kind(data) {
                Err(message) => {
                    return Err(message);
                },
                Ok(_) => {},
            }
            match check_scholarship_scope(data) {
                Err(message) => {
                    return Err(message);
                },
                Ok(_) => {},
            }
            match check_scholarship_dates(data) {
                Err(message) => {
                    return Err(message);
                },
                Ok(_) => {},
            }
            match check_scholarship_limit(data) {
                Err(message) => {
                    return Err(message);
                },
                Ok(_) => {},
            }
            check_scholarship_status(data)
        },
    }
}

} // verus!
