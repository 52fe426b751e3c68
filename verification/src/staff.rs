//! Members of staff and the payments of their salaries.

use vstd::prelude::*;
use crate::clock::current_time;
use crate::context::Answer;
use crate::context::SetDocContext;
use crate::money::agree;
use crate::money::agrees_with;
use crate::money::fixed_text;
use crate::money::net_total;
use crate::money::push_fixed;
use crate::money::push_fixed_total;
use crate::money::sum_of;
use crate::status::salary_graph;
use crate::status::salary_statuses;
use crate::status::transition_verdict;
use crate::store::check_unique;
use crate::store::ask;
use crate::store::description_query;
use crate::store::query_by_description;
use crate::store::Query;
use crate::store::has_conflict;
use crate::store::field_pattern;
use crate::store::pattern_for;
use crate::store::unique_verdict;
use crate::text::byte_len;
use crate::text::chars_of;
use crate::text::decimal_text;
use crate::text::find_repeat;
use crate::text::first_repeat;
use crate::text::is_blank;
use crate::text::literal_views;
use crate::text::push_decimal;
use crate::text::str_byte_length;
use crate::text::str_equal;
use crate::text::str_is_blank;
use crate::text::str_starts_with;
use crate::text::views_of;
use crate::validation_utils::date_after;
use crate::validation_utils::date_before;
use crate::validation_utils::date_format_ok;
use crate::validation_utils::date_is_after;
use crate::validation_utils::date_is_before;
use crate::validation_utils::date_parts;
use crate::validation_utils::date_to_timestamp;
use crate::validation_utils::department_name_ok;
use crate::validation_utils::is_valid_date_format;
use crate::validation_utils::is_valid_department_name;
use crate::validation_utils::is_valid_salary_reference;
use crate::validation_utils::parse_date;
use crate::validation_utils::salary_reference_ok;
use crate::validation_utils::timestamp_of;
use crate::validation_utils::FIFTY_YEARS;
use crate::validation_utils::THIRTY_DAYS;
use crate::verdict::and_then;
use crate::verdict::check_choice;
use crate::verdict::choice_message;
use crate::verdict::choice_rejection;
use crate::verdict::choice_verdict;
use crate::verdict::outcome;
use crate::verdict::quoting;
use crate::verdict::reject_if;
use crate::verdict::rejection;
use crate::verdict::unreadable;
use crate::verdict::Verdict;

verus! {

/// A member of staff. Amounts are in hundredths of the currency unit.
#[derive(Clone, Debug)]
pub struct StaffMemberData {
    pub surname: String,
    pub firstname: String,
    pub middlename: Option<String>,
    pub staff_number: String,
    pub phone: String,
    pub email: Option<String>,
    pub address: Option<String>,
    pub position: String,
    pub department: Option<String>,
    pub employment_type: String,
    pub employment_date: String,
    pub basic_salary: i64,
    pub allowances: Option<Vec<StaffAllowance>>,
    pub bank_name: Option<String>,
    pub account_number: Option<String>,
    pub is_active: bool,
    pub created_at: u64,
    pub updated_at: u64,
}

/// An allowance that a member of staff is entitled to.
#[derive(Clone, Debug)]
pub struct StaffAllowance {
    pub name: String,
    pub amount: i64,
    pub is_recurring: bool,
}

/// The payment of one salary for one period.
#[derive(Clone, Debug)]
pub struct SalaryPaymentData {
    pub staff_id: String,
    pub staff_name: String,
    pub staff_number: String,
    pub payment_date: String,
    pub payment_period_start: String,
    pub payment_period_end: String,
    pub basic_salary: i64,
    pub allowances: Vec<PaymentAllowanceItem>,
    pub deductions: Vec<PaymentDeductionItem>,
    pub net_salary: i64,
    pub payment_method: String,
    pub reference: String,
    pub status: String,
    pub notes: Option<String>,
    pub processed_by: String,
    pub processed_at: u64,
    pub created_at: u64,
    pub updated_at: u64,
}

/// An allowance paid with a salary.
#[derive(Clone, Debug)]
pub struct PaymentAllowanceItem {
    pub name: String,
    pub amount: i64,
    pub is_taxable: bool,
}

/// A deduction made from a salary.
#[derive(Clone, Debug)]
pub struct PaymentDeductionItem {
    pub name: String,
    pub amount: i64,
    pub is_statutory: bool,
}

/// A line of a salary: a name and an amount.
pub trait SalaryLine {
    /// The name of the line.
    spec fn line_name(&self) -> Seq<char>;

    /// The amount of the line.
    spec fn line_amount(&self) -> i64;

    /// The name of the line.
    fn name(&self) -> (r: &str)
        ensures
            r@ == self.line_name(),
    ;

    /// The amount of the line.
    fn amount(&self) -> (r: i64)
        ensures
            r == self.line_amount(),
    ;
}

impl SalaryLine for StaffAllowance {
    open spec fn line_name(&self) -> Seq<char> {
        self.name@
    }

    open spec fn line_amount(&self) -> i64 {
        self.amount
    }

    fn name(&self) -> (r: &str) {
        self.name.as_str()
    }

    fn amount(&self) -> (r: i64) {
        self.amount
    }
}

impl SalaryLine for PaymentAllowanceItem {
    open spec fn line_name(&self) -> Seq<char> {
        self.name@
    }

    open spec fn line_amount(&self) -> i64 {
        self.amount
    }

    fn name(&self) -> (r: &str) {
        self.name.as_str()
    }

    fn amount(&self) -> (r: i64) {
        self.amount
    }
}

impl SalaryLine for PaymentDeductionItem {
    open spec fn line_name(&self) -> Seq<char> {
        self.name@
    }

    open spec fn line_amount(&self) -> i64 {
        self.amount
    }

    fn name(&self) -> (r: &str) {
        self.name.as_str()
    }

    fn amount(&self) -> (r: i64) {
        self.amount
    }
}

/// The names of a list of lines.
pub open spec fn line_names<T: SalaryLine>(items: Seq<T>) -> Seq<Seq<char>> {
    Seq::new(items.len(), |i: int| items[i].line_name())
}

/// The amounts of a list of lines.
pub open spec fn line_amounts<T: SalaryLine>(items: Seq<T>) -> Seq<i64> {
    Seq::new(items.len(), |i: int| items[i].line_amount())
}

/// The rejection of a name that stands twice in a list; `what` says what the
/// list holds.
pub open spec fn repeat_message(what: Seq<char>, name: Seq<char>) -> Seq<char> {
    "Duplicate "@ + what + " name: '"@ + name + "'"@
}

/// No name stands twice in the list: the first that repeats an earlier one
/// is rejected.
pub open spec fn no_repeat_verdict(names: Seq<Seq<char>>, what: Seq<char>) -> Verdict {
    match first_repeat(names) {
        Some(j) => Err(repeat_message(what, names[j])),
        None => Ok(()),
    }
}

fn names_of<T: SalaryLine>(items: &Vec<T>) -> (out: Vec<Vec<char>>)
    ensures
        views_of(out@) == line_names(items@),
{
    let mut out: Vec<Vec<char>> = Vec::new();
    let mut i: usize = 0;
    while i < items.len()
        invariant
            i <= items.len(),
            out@.len() == i,
            forall|j: int| 0 <= j < i ==> (#[trigger] out@[j])@ == items@[j].line_name(),
        decreases items.len() - i,
    {
        out.push(chars_of(items[i].name()));
        i = i + 1;
    }
    proof {
        assert(views_of(out@) =~= line_names(items@));
    }
    out
}

fn amounts_of<T: SalaryLine>(items: &Vec<T>) -> (out: Vec<i64>)
    ensures
        out@ == line_amounts(items@),
{
    let mut out: Vec<i64> = Vec::new();
    let mut i: usize = 0;
    while i < items.len()
        invariant
            i <= items.len(),
            out@.len() == i,
            forall|j: int| 0 <= j < i ==> #[trigger] out@[j] == items@[j].line_amount(),
        decreases items.len() - i,
    {
        out.push(items[i].amount());
        i = i + 1;
    }
    proof {
        assert(out@ =~= line_amounts(items@));
    }
    out
}

fn check_no_repeat<T: SalaryLine>(items: &Vec<T>, what: &str) -> (res: Result<(), String>)
    ensures
        outcome(res) == no_repeat_verdict(line_names(items@), what@),
{
    let names = names_of(items);
    match find_repeat(&names) {
        Some(j) => {
            proof {
                assert(line_names(items@)[j as int] == items@[j as int].line_name());
            }
            let mut message = "Duplicate ".to_string();
            message.append(what);
            message.append(" name: '");
            message.append(items[j].name());
            message.append("'");
            Err(message)
        },
        None => Ok(()),
    }
}

// ---------------------------------------------------------------------------
// Members of staff
// ---------------------------------------------------------------------------

/// The basic salary is positive.
pub open spec fn staff_core_fields_verdict(staff: StaffMemberData) -> Verdict {
    reject_if(staff.basic_salary <= 0, "Basic salary must be greater than zero"@)
}

/// Checks the basic salary of a member of staff.
pub fn validate_staff_core_fields(staff: &StaffMemberData) -> (res: Result<(), String>)
    ensures
        outcome(res) == staff_core_fields_verdict(*staff),
{
    if staff.basic_salary <= 0 {
        return rejection("Basic salary must be greater than zero");
    }
    Ok(())
}

/// The kinds of employment.
pub open spec fn employment_types() -> Seq<Seq<char>> {
    seq!["full-time"@, "part-time"@, "contract"@]
}

/// The rejection of a department name that is too long: it gives the length.
pub open spec fn department_too_long(length: nat) -> Seq<char> {
    "Department name cannot exceed 50 characters (current: "@ + decimal_text(length) + ")"@
}

/// A department, where one is given, has a name of fifty bytes at most, and
/// unless it is blank, of the characters of a department name.
pub open spec fn department_verdict(department: Option<String>) -> Verdict {
    match department {
        None => Ok(()),
        Some(name) => if byte_len(name@) > 50 {
            Err(department_too_long(byte_len(name@)))
        } else if !is_blank(name@) && !department_name_ok(name@) {
            Err("Department name contains invalid characters"@)
        } else {
            Ok(())
        },
    }
}

/// The kind of employment is a known one; the date of employment has the
/// shape of a date and lies neither more than thirty days after `now` nor
/// more than fifty years before it; the department is in order.
pub open spec fn staff_employment_verdict(staff: StaffMemberData, now: u64) -> Verdict {
    and_then(
        choice_verdict("employment type"@, staff.employment_type@, employment_types()),
        if !date_format_ok(staff.employment_date@) {
            Err("Invalid employment date format. Must be YYYY-MM-DD"@)
        } else if date_after(staff.employment_date@, now, THIRTY_DAYS) {
            Err("Employment date cannot be more than 30 days in the future"@)
        } else if date_before(staff.employment_date@, now, FIFTY_YEARS) {
            Err("Employment date cannot be more than 50 years in the past"@)
        } else {
            department_verdict(staff.department)
        },
    )
}

fn check_department(department: &Option<String>) -> (res: Result<(), String>)
    ensures
        outcome(res) == department_verdict(*department),
{
    match department {
        None => Ok(()),
        Some(name) => {
            let length = str_byte_length(name.as_str());
            if length > 50 {
                let mut message = "Department name cannot exceed 50 characters (current: ".to_string();
                push_decimal(&mut message, length);
                message.append(")");
                return Err(message);
            }
            if !str_is_blank(name.as_str()) && !is_valid_department_name(name.as_str()) {
                return rejection("Department name contains invalid characters");
            }
            Ok(())
        },
    }
}

/// Checks the employment of a member of staff, with `now` for the present.
pub fn validate_staff_employment_details(staff: &StaffMemberData, now: u64) -> (res: Result<
    (),
    String,
>)
    ensures
        outcome(res) == staff_employment_verdict(*staff, now),
{
    let kinds: Vec<&'static str> = vec!["full-time", "part-time", "contract"];
    proof {
        assert(literal_views(kinds@) =~= employment_types());
    }
    match check_choice("employment type", staff.employment_type.as_str(), &kinds) {
        Err(message) => {
            return Err(message);
        },
        Ok(_) => {},
    }
    let date = staff.employment_date.as_str();
    if !is_valid_date_format(date) {
        return rejection("Invalid employment date format. Must be YYYY-MM-DD");
    }
    if date_is_after(date, now, THIRTY_DAYS) {
        return rejection("Employment date cannot be more than 30 days in the future");
    }
    if date_is_before(date, now, FIFTY_YEARS) {
        return rejection("Employment date cannot be more than 50 years in the past");
    }
    check_department(&staff.department)
}

/// No two allowances of a member of staff have one name.
pub open spec fn staff_allowances_verdict(staff: StaffMemberData) -> Verdict {
    match staff.allowances {
        Some(items) => no_repeat_verdict(line_names(items@), "allowance"@),
        None => Ok(()),
    }
}

/// Checks the allowances of a member of staff.
pub fn validate_staff_salary_and_allowances(staff: &StaffMemberData) -> (res: Result<(), String>)
    ensures
        outcome(res) == staff_allowances_verdict(*staff),
{
    match &staff.allowances {
        Some(items) => check_no_repeat(items, "allowance"),
        None => Ok(()),
    }
}

/// Contact details are not looked at here.
pub fn validate_staff_contact_information(_staff: &StaffMemberData) -> (res: Result<(), String>)
    ensures
        res is Ok,
{
    Ok(())
}

/// Bank details are not looked at here.
pub fn validate_staff_banking_details(_staff: &StaffMemberData) -> (res: Result<(), String>)
    ensures
        res is Ok,
{
    Ok(())
}

/// No further rule holds of a member of staff.
pub fn validate_staff_business_rules(_staff: &StaffMemberData) -> (res: Result<(), String>)
    ensures
        res is Ok,
{
    Ok(())
}

/// The rejection of a staff number that another member has.
pub open spec fn staff_number_taken(number: Seq<char>) -> Seq<char> {
    quoting("Staff number '"@, number, "' already exists"@)
}

/// No other member of staff has the staff number, by the store's answer.
pub open spec fn staff_unique_verdict(key: Seq<char>, staff: StaffMemberData, answer: Answer) -> Verdict {
    unique_verdict(answer, key, staff_number_taken(staff.staff_number@))
}

/// Reads the store's answer on the members of staff that have the number of
/// `staff`.
pub fn check_staff_number_unique(key: &str, staff: &StaffMemberData, answer: &Answer) -> (res:
    Result<(), String>)
    ensures
        outcome(res) == staff_unique_verdict(key@, *staff, *answer),
{
    check_unique(answer, key, "Staff number '", staff.staff_number.as_str(), "' already exists")
}

/// The question for the members of staff that have the staff number of
/// `staff`.
pub fn staff_number_query(staff: &StaffMemberData) -> (query: Query)
    ensures
        query@ == description_query(
            "staff"@,
            field_pattern("staff_number"@, staff.staff_number@),
        ),
{
    query_by_description("staff", pattern_for("staff_number", staff.staff_number.as_str()))
}

/// Asks the store whether another member of staff has the staff number.
pub fn validate_staff_number_uniqueness(
    context: &SetDocContext<StaffMemberData>,
    staff: &StaffMemberData,
) -> (res: Result<(), String>)
    ensures
        exists|answer: Answer|
            outcome(res) == #[trigger] staff_unique_verdict(context.key@, *staff, answer),
{
    let answer = ask(&staff_number_query(staff));
    let res = check_staff_number_unique(context.key.as_str(), staff, &answer);
    proof {
        assert(outcome(res) == staff_unique_verdict(context.key@, *staff, answer));
    }
    res
}

/// What a write of a member of staff is judged by besides the record: the
/// present, and the store's answer on the members that have its staff
/// number.
pub struct StaffFindings {
    pub now: u64,
    pub staff_numbers: Answer,
}

/// Everything that is asked of a member of staff short of the store: the
/// basic salary, the employment, the allowances, in this order.
pub open spec fn staff_rules_verdict(staff: StaffMemberData, now: u64) -> Verdict {
    and_then(
        staff_core_fields_verdict(staff),
        and_then(staff_employment_verdict(staff, now), staff_allowances_verdict(staff)),
    )
}

/// The verdict on a write of a member of staff: a record that cannot be read
/// is rejected with the decoder's words; else the first rule that fails
/// rejects; the store is heard last.
pub open spec fn staff_verdict(context: SetDocContext<StaffMemberData>, findings: StaffFindings) -> Verdict {
    match context.proposed {
        Err(failure) => Err("Invalid staff data format: "@ + failure@),
        Ok(staff) => and_then(
            staff_rules_verdict(staff, findings.now),
            staff_unique_verdict(context.key@, staff, findings.staff_numbers),
        ),
    }
}

fn check_staff_later_rules(staff: &StaffMemberData, now: u64) -> (res: Result<(), String>)
    ensures
        outcome(res) == and_then(
            staff_employment_verdict(*staff, now),
            staff_allowances_verdict(*staff),
        ),
{
    match validate_staff_employment_details(staff, now) {
        Err(message) => {
            return Err(message);
        },
        Ok(_) => {},
    }
    match validate_staff_salary_and_allowances(staff) {
        Err(message) => {
            return Err(message);
        },
        Ok(_) => {},
    }
    match validate_staff_contact_information(staff) {
        Err(message) => {
            return Err(message);
        },
        Ok(_) => {},
    }
    validate_staff_banking_details(staff)
}

fn check_staff_rules(staff: &StaffMemberData, now: u64) -> (res: Result<(), String>)
    ensures
        outcome(res) == staff_rules_verdict(*staff, now),
{
    match validate_staff_core_fields(staff) {
        Err(message) => Err(message),
        Ok(_) => check_staff_later_rules(staff, now),
    }
}

/// Decides on a write of a member of staff, given the present and the
/// store's answer.
pub fn check_staff_document(context: &SetDocContext<StaffMemberData>, findings: &StaffFindings) -> (res:
    Result<(), String>)
    ensures
        outcome(res) == staff_verdict(*context, *findings),
{
    match &context.proposed {
        Err(failure) => unreadable("Invalid staff data format: ", failure),
        Ok(staff) => {
            match check_staff_rules(staff, findings.now) {
                Err(message) => {
                    return Err(message);
                },
                Ok(_) => {},
            }
            match check_staff_number_unique(context.key.as_str(), staff, &findings.staff_numbers) {
                Err(message) => Err(message),
                Ok(_) => validate_staff_business_rules(staff),
            }
        },
    }
}

/// Decides on a write of a member of staff. The clock is read, and the store
/// is asked once the record has passed every other rule; the verdict is the
/// one that `staff_verdict` gives for what they said.
pub fn validate_staff_document(context: &SetDocContext<StaffMemberData>) -> (res: Result<(), String>)
    ensures
        exists|findings: StaffFindings| outcome(res) == #[trigger] staff_verdict(*context, findings),
{
    match &context.proposed {
        Err(failure) => {
            let res = unreadable("Invalid staff data format: ", failure);
            proof {
                let findings: StaffFindings = arbitrary();
                assert(outcome(res) == staff_verdict(*context, findings));
            }
            res
        },
        Ok(staff) => {
            match validate_staff_core_fields(staff) {
                Err(message) => {
                    proof {
                        let findings: StaffFindings = arbitrary();
                        assert(outcome(Err(message)) == staff_verdict(*context, findings));
                    }
                    return Err(message);
                },
                Ok(_) => {},
            }
            let now = current_time();
            match check_staff_later_rules(staff, now) {
                Err(message) => {
                    proof {
                        let findings = StaffFindings { now, staff_numbers: arbitrary() };
                        assert(outcome(Err(message)) == staff_verdict(*context, findings));
                    }
                    return Err(message);
                },
                Ok(_) => {},
            }
            let res = validate_staff_number_uniqueness(context, staff);
            proof {
                let answer = choose|answer: Answer|
                    outcome(res) == #[trigger] staff_unique_verdict(context.key@, *staff, answer);
                let findings = StaffFindings { now, staff_numbers: answer };
                assert(outcome(res) == staff_verdict(*context, findings));
            }
            match res {
                Err(message) => Err(message),
                Ok(_) => validate_staff_business_rules(staff),
            }
        },
    }
}

// ---------------------------------------------------------------------------
// Payments of salaries
// ---------------------------------------------------------------------------

/// The basic salary is positive.
pub open spec fn salary_core_fields_verdict(salary: SalaryPaymentData) -> Verdict {
    reject_if(salary.basic_salary <= 0, "Basic salary must be greater than zero"@)
}

/// Checks the basic salary of a salary payment.
pub fn validate_salary_core_fields(salary: &SalaryPaymentData) -> (res: Result<(), String>)
    ensures
        outcome(res) == salary_core_fields_verdict(*salary),
{
    if salary.basic_salary <= 0 {
        return rejection("Basic salary must be greater than zero");
    }
    Ok(())
}

/// What the net salary must be: the basic salary and the allowances, less
/// the deductions.
pub open spec fn expected_net(salary: SalaryPaymentData) -> int {
    salary.basic_salary + sum_of(line_amounts(salary.allowances@)) - sum_of(
        line_amounts(salary.deductions@),
    )
}

/// The rejection of a net salary that is not what the parts give: it quotes
/// the net salary as declared and as computed.
pub open spec fn net_salary_message(declared: int, computed: int) -> Seq<char> {
    "Net salary (₦"@ + fixed_text(declared) + ") doesn't match basic + allowances - deductions (₦"@
        + fixed_text(computed) + ")"@
}

/// No allowance and no deduction is named twice, and the net salary is what
/// the parts give, within the tolerance.
pub open spec fn salary_amounts_verdict(salary: SalaryPaymentData) -> Verdict {
    and_then(
        no_repeat_verdict(line_names(salary.allowances@), "allowance"@),
        and_then(
            no_repeat_verdict(line_names(salary.deductions@), "deduction"@),
            reject_if(
                !agree(salary.net_salary as int, expected_net(salary)),
                net_salary_message(salary.net_salary as int, expected_net(salary)),
            ),
        ),
    )
}

/// Checks the amounts of a salary payment.
pub fn validate_salary_amounts_and_calculations(salary: &SalaryPaymentData) -> (res: Result<
    (),
    String,
>)
    ensures
        outcome(res) == salary_amounts_verdict(*salary),
{
    match check_no_repeat(&salary.allowances, "allowance") {
        Err(message) => {
            return Err(message);
        },
        Ok(_) => {},
    }
    match check_no_repeat(&salary.deductions, "deduction") {
        Err(message) => {
            return Err(message);
        },
        Ok(_) => {},
    }
    let plus = amounts_of(&salary.allowances);
    let minus = amounts_of(&salary.deductions);
    let computed = net_total(salary.basic_salary, &plus, &minus);
    if !agrees_with(salary.net_salary, &computed) {
        let mut message = "Net salary (₦".to_string();
        push_fixed(&mut message, salary.net_salary);
        message.append(") doesn't match basic + allowances - deductions (₦");
        push_fixed_total(&mut message, &computed);
        message.append(")");
        return Err(message);
    }
    Ok(())
}

/// The timestamp of a date that has been read.
pub open spec fn stamp(parts: (u32, u32, u32)) -> int {
    timestamp_of(parts.0, parts.1, parts.2)
}

/// The order of the dates of a salary payment: the period does not end
/// before it starts, and the payment is not made before the period starts.
/// A date that cannot be read is rejected by its name.
pub open spec fn salary_period_order_verdict(salary: SalaryPaymentData) -> Verdict {
    match date_parts(salary.payment_period_start@) {
        Err(_) => Err("Invalid payment_period_start"@),
        Ok(start) => match date_parts(salary.payment_period_end@) {
            Err(_) => Err("Invalid payment_period_end"@),
            Ok(end) => if stamp(end) < stamp(start) {
                Err("Payment period end cannot be before start"@)
            } else {
                match date_parts(salary.payment_date@) {
                    Err(_) => Err("Invalid payment_date"@),
                    Ok(paid) => reject_if(
                        stamp(paid) < stamp(start),
                        "Payment date cannot be before the period start"@,
                    ),
                }
            },
        },
    }
}

/// The dates of a salary payment: the date of payment has the shape of a
/// date and lies no more than thirty days after `now`; the period's start
/// and end have the shape of dates; and the three are in order.
pub open spec fn salary_period_verdict(salary: SalaryPaymentData, now: u64) -> Verdict {
    if !date_format_ok(salary.payment_date@) {
        Err("Invalid payment date format. Must be YYYY-MM-DD"@)
    } else if date_after(salary.payment_date@, now, THIRTY_DAYS) {
        Err("Payment date cannot be more than 30 days in the future"@)
    } else if !date_format_ok(salary.payment_period_start@) || !date_format_ok(
        salary.payment_period_end@,
    ) {
        Err("Payment period start and end must be valid dates (YYYY-MM-DD)"@)
    } else {
        salary_period_order_verdict(salary)
    }
}

fn check_salary_period_order(salary: &SalaryPaymentData) -> (res: Result<(), String>)
    ensures
        outcome(res) == salary_period_order_verdict(*salary),
{
    let start = match parse_date(salary.payment_period_start.as_str()) {
        Ok((year, month, day)) => date_to_timestamp(year, month, day),
        Err(_) => {
            return rejection("Invalid payment_period_start");
        },
    };
    let end = match parse_date(salary.payment_period_end.as_str()) {
        Ok((year, month, day)) => date_to_timestamp(year, month, day),
        Err(_) => {
            return rejection("Invalid payment_period_end");
        },
    };
    if end < start {
        return rejection("Payment period end cannot be before start");
    }
    let paid = match parse_date(salary.payment_date.as_str()) {
        Ok((year, month, day)) => date_to_timestamp(year, month, day),
        Err(_) => {
            return rejection("Invalid payment_date");
        },
    };
    if paid < start {
        return rejection("Payment date cannot be before the period start");
    }
    Ok(())
}

/// Checks the dates of a salary payment, with `now` for the present.
pub fn validate_salary_payment_period(salary: &SalaryPaymentData, now: u64) -> (res: Result<
    (),
    String,
>)
    ensures
        outcome(res) == salary_period_verdict(*salary, now),
{
    if !is_valid_date_format(salary.payment_date.as_str()) {
        return rejection("Invalid payment date format. Must be YYYY-MM-DD");
    }
    if date_is_after(salary.payment_date.as_str(), now, THIRTY_DAYS) {
        return rejection("Payment date cannot be more than 30 days in the future");
    }
    if !is_valid_date_format(salary.payment_period_start.as_str()) || !is_valid_date_format(
        salary.payment_period_end.as_str(),
    ) {
        return rejection("Payment period start and end must be valid dates (YYYY-MM-DD)");
    }
    check_salary_period_order(salary)
}

/// The ways in which a salary can be paid.
pub open spec fn salary_methods() -> Seq<Seq<char>> {
    seq!["bank_transfer"@, "cash"@, "cheque"@]
}

/// The method of a salary payment is one of the known ones.
pub open spec fn salary_method_verdict(salary: SalaryPaymentData) -> Verdict {
    choice_verdict("payment method"@, salary.payment_method@, salary_methods())
}

/// Checks the method of a salary payment.
pub fn validate_salary_payment_method(salary: &SalaryPaymentData) -> (res: Result<(), String>)
    ensures
        outcome(res) == salary_method_verdict(*salary),
{
    let methods: Vec<&'static str> = vec!["bank_transfer", "cash", "cheque"];
    proof {
        assert(literal_views(methods@) =~= salary_methods());
    }
    check_choice("payment method", salary.payment_method.as_str(), &methods)
}

/// What the status of a salary payment asks of its other fields: an
/// approved one names who processed it.
pub open spec fn salary_companion_verdict(salary: SalaryPaymentData) -> Verdict {
    reject_if(
        salary.status@ == "approved"@ && is_blank(salary.processed_by@),
        "Approved salary payments must have processed_by set"@,
    )
}

/// The status of a salary payment is a known one; a new payment is pending;
/// a changed payment keeps its status or moves along the graph, and then has
/// what its status asks for.
pub open spec fn salary_status_verdict(
    current: Option<Result<SalaryPaymentData, String>>,
    salary: SalaryPaymentData,
) -> Verdict {
    let graph = salary_statuses();
    if !graph.knows(salary.status@) {
        Err(choice_message("salary status"@, salary.status@, graph.statuses()))
    } else {
        match current {
            Some(Err(failure)) => Err("Invalid previous salary data: "@ + failure@),
            Some(Ok(before)) => and_then(
                transition_verdict(graph, before.status@, salary.status@),
                salary_companion_verdict(salary),
            ),
            None => reject_if(
                !graph.may_start(salary.status@),
                "New salary payments must have status 'pending'"@,
            ),
        }
    }
}

/// Resubmitting a salary payment with its status unchanged asks for nothing
/// but what that status asks for.
pub proof fn lemma_salary_resubmission(before: SalaryPaymentData, salary: SalaryPaymentData)
    requires
        salary_statuses().knows(salary.status@),
        before.status@ == salary.status@,
    ensures
        salary_status_verdict(Some(Ok(before)), salary) == salary_companion_verdict(salary),
{
}

/// A change of status along no edge of the salary graph is rejected with the
/// transition error.
pub proof fn lemma_salary_transition_rejected(before: SalaryPaymentData, salary: SalaryPaymentData)
    requires
        salary_statuses().knows(salary.status@),
        before.status@ != salary.status@,
        !salary_statuses().allows(before.status@, salary.status@),
    ensures
        salary_status_verdict(Some(Ok(before)), salary) == transition_verdict(
            salary_statuses(),
            before.status@,
            salary.status@,
        ),
        salary_status_verdict(Some(Ok(before)), salary) is Err,
{
}

/// Checks the status of a salary payment against the record as it stands.
pub fn validate_salary_status_transitions(
    context: &SetDocContext<SalaryPaymentData>,
    salary: &SalaryPaymentData,
) -> (res: Result<(), String>)
    ensures
        outcome(res) == salary_status_verdict(context.current, *salary),
{
    let graph = salary_graph();
    if !graph.knows(salary.status.as_str()) {
        return choice_rejection("salary status", salary.status.as_str(), graph.statuses_text());
    }
    match &context.current {
        Some(Err(failure)) => unreadable("Invalid previous salary data: ", failure),
        Some(Ok(before)) => {
            match graph.check_transition(before.status.as_str(), salary.status.as_str()) {
                Err(message) => Err(message),
                Ok(_) => {
                    if str_equal(salary.status.as_str(), "approved") && str_is_blank(
                        salary.processed_by.as_str(),
                    ) {
                        return rejection("Approved salary payments must have processed_by set");
                    }
                    Ok(())
                },
            }
        },
        None => {
            if !graph.may_start(salary.status.as_str()) {
                return rejection("New salary payments must have status 'pending'");
            }
            Ok(())
        },
    }
}

/// The reference of a salary payment begins with `SAL-` and has the shape of
/// a salary reference.
pub open spec fn salary_reference_verdict(salary: SalaryPaymentData) -> Verdict {
    if !"SAL-"@.is_prefix_of(salary.reference@) {
        Err("Salary reference must start with 'SAL-'"@)
    } else if !salary_reference_ok(salary.reference@) {
        Err("Salary reference must follow format: SAL-YYYY-MM-XXXXXX"@)
    } else {
        Ok(())
    }
}

/// Checks the shape of the reference of a salary payment.
pub fn validate_salary_reference_format(salary: &SalaryPaymentData) -> (res: Result<(), String>)
    ensures
        outcome(res) == salary_reference_verdict(*salary),
{
    if !str_starts_with(salary.reference.as_str(), "SAL-") {
        return rejection("Salary reference must start with 'SAL-'");
    }
    if !is_valid_salary_reference(salary.reference.as_str()) {
        return rejection("Salary reference must follow format: SAL-YYYY-MM-XXXXXX");
    }
    Ok(())
}

/// The rejection of a reference that another salary payment has.
pub open spec fn salary_reference_taken(reference: Seq<char>) -> Seq<char> {
    quoting("Salary reference '"@, reference, "' already exists"@)
}

/// No other salary payment has the reference, by the store's answer.
pub open spec fn salary_unique_verdict(key: Seq<char>, salary: SalaryPaymentData, answer: Answer) -> Verdict {
    unique_verdict(answer, key, salary_reference_taken(salary.reference@))
}

/// Reads the store's answer on the salary payments that have the reference
/// of `salary`.
pub fn check_salary_reference_unique(key: &str, salary: &SalaryPaymentData, answer: &Answer) -> (res:
    Result<(), String>)
    ensures
        outcome(res) == salary_unique_verdict(key@, *salary, *answer),
{
    check_unique(answer, key, "Salary reference '", salary.reference.as_str(), "' already exists")
}

/// The question for the salary payments that have the reference of
/// `salary`.
pub fn salary_reference_query(salary: &SalaryPaymentData) -> (query: Query)
    ensures
        query@ == description_query(
            "salary_payments"@,
            field_pattern("reference"@, salary.reference@),
        ),
{
    query_by_description("salary_payments", pattern_for("reference", salary.reference.as_str()))
}

/// Checks the reference of a salary payment: its shape, and with the store
/// that no other salary payment has it.
pub fn validate_salary_reference_uniqueness(
    context: &SetDocContext<SalaryPaymentData>,
    salary: &SalaryPaymentData,
) -> (res: Result<(), String>)
    ensures
        exists|answer: Answer|
            outcome(res) == and_then(
                salary_reference_verdict(*salary),
                #[trigger] salary_unique_verdict(context.key@, *salary, answer),
            ),
{
    match validate_salary_reference_format(salary) {
        Err(message) => {
            proof {
                let answer: Answer = arbitrary();
                assert(outcome(Err(message)) == and_then(
                    salary_reference_verdict(*salary),
                    salary_unique_verdict(context.key@, *salary, answer),
                ));
            }
            Err(message)
        },
        Ok(_) => {
            let answer = ask(&salary_reference_query(salary));
            let res = check_salary_reference_unique(context.key.as_str(), salary, &answer);
            proof {
                assert(outcome(res) == and_then(
                    salary_reference_verdict(*salary),
                    salary_unique_verdict(context.key@, *salary, answer),
                ));
            }
            res
        },
    }
}

/// The pattern by which the paid salaries of one member of staff for one
/// period are found.
pub open spec fn paid_salary_pattern(salary: SalaryPaymentData) -> Seq<char> {
    "staff_id="@ + salary.staff_id@ + "*payment_period_start="@ + salary.payment_period_start@
        + "*payment_period_end="@ + salary.payment_period_end@ + "*status=paid;"@
}

/// The rejection of a second paid salary for one period.
pub open spec fn paid_twice_message(salary: SalaryPaymentData) -> Seq<char> {
    "Staff "@ + salary.staff_number@ + " already has a paid salary for period "@
        + salary.payment_period_start@ + " to "@ + salary.payment_period_end@
}

/// A member of staff is paid once for a period: a salary payment that is
/// paid is rejected where the store finds another paid one for the same
/// member and period. One that is not paid asks nothing of the store.
pub open spec fn salary_paid_once_verdict(
    key: Seq<char>,
    salary: SalaryPaymentData,
    answer: Answer,
) -> Verdict {
    if salary.status@ == "paid"@ {
        unique_verdict(answer, key, paid_twice_message(salary))
    } else {
        Ok(())
    }
}

/// Builds the pattern by which the paid salaries of one member of staff for
/// one period are found.
pub fn build_paid_salary_pattern(salary: &SalaryPaymentData) -> (out: String)
    ensures
        out@ == paid_salary_pattern(*salary),
{
    let mut out = "staff_id=".to_string();
    out.append(salary.staff_id.as_str());
    out.append("*payment_period_start=");
    out.append(salary.payment_period_start.as_str());
    out.append("*payment_period_end=");
    out.append(salary.payment_period_end.as_str());
    out.append("*status=paid;");
    out
}

/// The question for the paid salaries of the same member of staff and
/// period.
pub fn paid_salary_query(salary: &SalaryPaymentData) -> (query: Query)
    ensures
        query@ == description_query("salary_payments"@, paid_salary_pattern(*salary)),
{
    query_by_description("salary_payments", build_paid_salary_pattern(salary))
}

/// Reads the store's answer on the paid salaries of the same member of staff
/// and period.
pub fn check_salary_paid_once(key: &str, salary: &SalaryPaymentData, answer: &Answer) -> (res:
    Result<(), String>)
    ensures
        outcome(res) == salary_paid_once_verdict(key@, *salary, *answer),
{
    if !str_equal(salary.status.as_str(), "paid") {
        return Ok(());
    }
    match answer {
        Err(failure) => Err(failure.clone()),
        Ok(found) => {
            if has_conflict(found, key) {
                let mut message = "Staff ".to_string();
                message.append(salary.staff_number.as_str());
                message.append(" already has a paid salary for period ");
                message.append(salary.payment_period_start.as_str());
                message.append(" to ");
                message.append(salary.payment_period_end.as_str());
                return Err(message);
            }
            Ok(())
        },
    }
}

/// Asks the store, for a salary payment that is paid, whether the member of
/// staff has been paid for the period before.
pub fn validate_salary_business_rules(
    context: &SetDocContext<SalaryPaymentData>,
    salary: &SalaryPaymentData,
) -> (res: Result<(), String>)
    ensures
        exists|answer: Answer|
            outcome(res) == #[trigger] salary_paid_once_verdict(context.key@, *salary, answer),
{
    if !str_equal(salary.status.as_str(), "paid") {
        proof {
            let answer: Answer = arbitrary();
            assert(outcome(Ok(())) == salary_paid_once_verdict(context.key@, *salary, answer));
        }
        return Ok(());
    }
    let answer = ask(&paid_salary_query(salary));
    let res = check_salary_paid_once(context.key.as_str(), salary, &answer);
    proof {
        assert(outcome(res) == salary_paid_once_verdict(context.key@, *salary, answer));
    }
    res
}

/// What a write of a salary payment is judged by besides the record: the
/// present, the store's answer on the salary payments that have its
/// reference, and the store's answer on the paid salaries of the same member
/// of staff and period.
pub struct SalaryFindings {
    pub now: u64,
    pub references: Answer,
    pub paid_runs: Answer,
}

/// Everything that is asked of a salary payment short of the store: the
/// basic salary, the amounts, the dates, the method, the status and the
/// shape of the reference, in this order.
pub open spec fn salary_rules_verdict(
    current: Option<Result<SalaryPaymentData, String>>,
    salary: SalaryPaymentData,
    now: u64,
) -> Verdict {
    and_then(
        salary_core_fields_verdict(salary),
        and_then(
            salary_amounts_verdict(salary),
            and_then(
                salary_period_verdict(salary, now),
                and_then(
                    salary_method_verdict(salary),
                    and_then(
                        salary_status_verdict(current, salary),
                        salary_reference_verdict(salary),
                    ),
                ),
            ),
        ),
    )
}

/// The verdict on a write of a salary payment: a record that cannot be read
/// is rejected with the decoder's words; else the first rule that fails
/// rejects; the store is heard last, on the reference first.
pub open spec fn salary_verdict(
    context: SetDocContext<SalaryPaymentData>,
    findings: SalaryFindings,
) -> Verdict {
    match context.proposed {
        Err(failure) => Err("Invalid salary payment data format: "@ + failure@),
        Ok(salary) => and_then(
            salary_rules_verdict(context.current, salary, findings.now),
            and_then(
                salary_unique_verdict(context.key@, salary, findings.references),
                salary_paid_once_verdict(context.key@, salary, findings.paid_runs),
            ),
        ),
    }
}

/// An accepted salary payment reconciles: its basic salary is positive, and
/// its net salary is the basic salary and the allowances less the
/// deductions, within the tolerance.
pub proof fn lemma_accepted_salary_reconciles(
    context: SetDocContext<SalaryPaymentData>,
    findings: SalaryFindings,
)
    requires
        salary_verdict(context, findings) is Ok,
    ensures
        context.proposed is Ok,
        context.proposed->Ok_0.basic_salary > 0,
        agree(context.proposed->Ok_0.net_salary as int, expected_net(context.proposed->Ok_0)),
{
}

fn check_salary_later_rules(
    context: &SetDocContext<SalaryPaymentData>,
    salary: &SalaryPaymentData,
    now: u64,
) -> (res: Result<(), String>)
    ensures
        outcome(res) == and_then(
            salary_period_verdict(*salary, now),
            and_then(
                salary_method_verdict(*salary),
                salary_status_verdict(context.current, *salary),
            ),
        ),
{
    match validate_salary_payment_period(salary, now) {
        Err(message) => {
            return Err(message);
        },
        Ok(_) => {},
    }
    match validate_salary_payment_method(salary) {
        Err(message) => {
            return Err(message);
        },
        Ok(_) => {},
    }
    validate_salary_status_transitions(context, salary)
}

fn check_salary_rules(
    context: &SetDocContext<SalaryPaymentData>,
    salary: &SalaryPaymentData,
    now: u64,
) -> (res: Result<(), String>)
    ensures
        outcome(res) == salary_rules_verdict(context.current, *salary, now),
{
    match validate_salary_core_fields(salary) {
        Err(message) => {
            return Err(message);
        },
        Ok(_) => {},
    }
    match validate_salary_amounts_and_calculations(salary) {
        Err(message) => {
            return Err(message);
        },
        Ok(_) => {},
    }
    match check_salary_later_rules(context, salary, now) {
        Err(message) => Err(message),
        Ok(_) => validate_salary_reference_format(salary),
    }
}

/// Decides on a write of a salary payment, given the present and the store's
/// answers.
pub fn check_salary_payment_document(
    context: &SetDocContext<SalaryPaymentData>,
    findings: &SalaryFindings,
) -> (res: Result<(), String>)
    ensures
        outcome(res) == salary_verdict(*context, *findings),
{
    match &context.proposed {
        Err(failure) => unreadable("Invalid salary payment data format: ", failure),
        Ok(salary) => {
            match check_salary_rules(context, salary, findings.now) {
                Err(message) => {
                    return Err(message);
                },
                Ok(_) => {},
            }
            match check_salary_reference_unique(context.key.as_str(), salary, &findings.references) {
                Err(message) => {
                    return Err(message);
                },
                Ok(_) => {},
            }
            check_salary_paid_once(context.key.as_str(), salary, &findings.paid_runs)
        },
    }
}

/// Decides on a write of a salary payment. The clock is read, and the store
/// is asked once the record has passed every other rule; the verdict is the
/// one that `salary_verdict` gives for what they said.
pub fn validate_salary_payment_document(context: &SetDocContext<SalaryPaymentData>) -> (res: Result<
    (),
    String,
>)
    ensures
        exists|findings: SalaryFindings|
            outcome(res) == #[trigger] salary_verdict(*context, findings),
{
    match &context.proposed {
        Err(failure) => {
            let res = unreadable("Invalid salary payment data format: ", failure);
            proof {
                let findings: SalaryFindings = arbitrary();
                assert(outcome(res) == salary_verdict(*context, findings));
            }
            res
        },
        Ok(salary) => {
            match validate_salary_core_fields(salary) {
                Err(message) => {
                    proof {
                        let findings: SalaryFindings = arbitrary();
                        assert(outcome(Err(message)) == salary_verdict(*context, findings));
                    }
                    return Err(message);
                },
                Ok(_) => {},
            }
            match validate_salary_amounts_and_calculations(salary) {
                Err(message) => {
                    proof {
                        let findings: SalaryFindings = arbitrary();
                        assert(outcome(Err(message)) == salary_verdict(*context, findings));
                    }
                    return Err(message);
                },
                Ok(_) => {},
            }
            let now = current_time();
            match check_salary_later_rules(context, salary, now) {
                Err(message) => {
                    proof {
                        let findings = SalaryFindings {
                            now,
                            references: arbitrary(),
                            paid_runs: arbitrary(),
                        };
                        assert(outcome(Err(message)) == salary_verdict(*context, findings));
                    }
                    return Err(message);
                },
                Ok(_) => {},
            }
            let first = validate_salary_reference_uniqueness(context, salary);
            let ghost references = choose|answer: Answer|
                outcome(first) == and_then(
                    salary_reference_verdict(*salary),
                    #[trigger] salary_unique_verdict(context.key@, *salary, answer),
                );
            match first {
                Err(message) => {
                    proof {
                        let findings = SalaryFindings { now, references, paid_runs: arbitrary() };
                        assert(outcome(Err(message)) == salary_verdict(*context, findings));
                    }
                    return Err(message);
                },
                Ok(_) => {},
            }
            let res = validate_salary_business_rules(context, salary);
            proof {
                let paid_runs = choose|answer: Answer|
                    outcome(res) == #[trigger] salary_paid_once_verdict(
                        context.key@,
                        *salary,
                        answer,
                    );
                let findings = SalaryFindings { now, references, paid_runs };
                assert(outcome(res) == salary_verdict(*context, findings));
            }
            res
        },
    }
}

/// A write that changes the status of a salary payment along no edge of the
/// graph is rejected; where every rule before the status passes, the
/// rejection is the transition error.
pub proof fn lemma_salary_off_graph_rejected(
    context: SetDocContext<SalaryPaymentData>,
    before: SalaryPaymentData,
    findings: SalaryFindings,
)
    requires
        context.proposed is Ok,
        context.current == Some(Ok::<SalaryPaymentData, String>(before)),
        before.status@ != context.proposed->Ok_0.status@,
        !salary_statuses().allows(before.status@, context.proposed->Ok_0.status@),
    ensures
        salary_verdict(context, findings) is Err,
        salary_statuses().knows(context.proposed->Ok_0.status@) && salary_core_fields_verdict(
            context.proposed->Ok_0,
        ) is Ok && salary_amounts_verdict(context.proposed->Ok_0) is Ok && salary_period_verdict(
            context.proposed->Ok_0,
            findings.now,
        ) is Ok && salary_method_verdict(context.proposed->Ok_0) is Ok ==> salary_verdict(
            context,
            findings,
        ) == transition_verdict(salary_statuses(), before.status@, context.proposed->Ok_0.status@),
{
}

} // verus!
