//! Expenses and the categories they fall under.

use vstd::prelude::*;
use crate::clock::current_time;
use crate::context::Answer;
use crate::context::SetDocContext;
use crate::money::push_short;
use crate::money::short_text;
use crate::status::expense_graph;
use crate::status::expense_statuses;
use crate::status::transition_verdict;
use crate::store::check_present;
use crate::store::check_unique;
use crate::store::field_pattern;
use crate::store::ask;
use crate::store::description_query;
use crate::store::query_by_description;
use crate::store::Query;
use crate::store::key_query;
use crate::store::has_conflict;
use crate::store::pattern_for;
use crate::store::present_verdict;
use crate::store::query_by_key;
use crate::store::unique_verdict;
use crate::text::byte_len;
use crate::text::decimal_text;
use crate::text::is_blank;
use crate::text::literal_views;
use crate::text::lowercase;
use crate::text::lowercase_of;
use crate::text::push_decimal;
use crate::text::str_byte_length;
use crate::text::str_equal;
use crate::text::str_is_blank;
use crate::text::str_starts_with;
use crate::validation_utils::budget_code_ok;
use crate::validation_utils::category_name_ok;
use crate::validation_utils::date_format_ok;
use crate::validation_utils::expense_reference_ok;
use crate::validation_utils::is_valid_budget_code;
use crate::validation_utils::is_valid_category_name;
use crate::validation_utils::is_valid_date_format;
use crate::validation_utils::is_valid_expense_reference;
use crate::validation_utils::wrap64;
use crate::verdict::and_then;
use crate::verdict::check_choice;
use crate::verdict::choice_verdict;
use crate::verdict::is_lacking;
use crate::verdict::lacks_text;
use crate::verdict::outcome;
use crate::verdict::quote;
use crate::verdict::quoting;
use crate::verdict::reject_if;
use crate::verdict::rejection;
use crate::verdict::unreadable;
use crate::verdict::Verdict;

verus! {

/// An expense. The amount is in hundredths of the currency unit; the times
/// are in nanoseconds since 1970.
#[derive(Clone, Debug)]
pub struct ExpenseData {
    pub category_id: String,
    pub category_name: String,
    pub category: String,
    pub amount: i64,
    pub description: String,
    pub purpose: Option<String>,
    pub payment_method: String,
    pub payment_date: String,
    pub vendor_name: Option<String>,
    pub vendor_contact: Option<String>,
    pub reference: String,
    pub invoice_url: Option<String>,
    pub status: String,
    pub approved_by: Option<String>,
    pub approved_at: Option<u64>,
    pub notes: Option<String>,
    pub recorded_by: String,
    pub created_at: u64,
    pub updated_at: u64,
}

/// A category of expenses.
#[derive(Clone, Debug)]
pub struct ExpenseCategoryData {
    pub name: String,
    pub category: String,
    pub description: Option<String>,
    pub budget_code: Option<String>,
    pub is_active: bool,
    pub created_at: u64,
    pub updated_at: u64,
}

/// One hour, in nanoseconds.
pub const ONE_HOUR: u64 = 3_600_000_000_000;

/// The shortest reason for a rejection, in bytes.
pub const MIN_REASON_LENGTH: u128 = 10;

/// The longest description of a category, in bytes.
pub const MAX_DESCRIPTION_LENGTH: u128 = 1000;

// ---------------------------------------------------------------------------
// Amount
// ---------------------------------------------------------------------------

/// The amount of an expense is positive.
pub open spec fn expense_basic_fields_verdict(expense: ExpenseData) -> Verdict {
    reject_if(expense.amount <= 0, "Expense amount must be greater than 0"@)
}

/// Checks the amount of an expense.
pub fn validate_expense_basic_fields(expense: &ExpenseData) -> (res: Result<(), String>)
    ensures
        outcome(res) == expense_basic_fields_verdict(*expense),
{
    if expense.amount <= 0 {
        return rejection("Expense amount must be greater than 0");
    }
    Ok(())
}

// ---------------------------------------------------------------------------
// Status
// ---------------------------------------------------------------------------

/// What a change to a status asks of the other fields: an approved expense
/// names its approver, in a text that is not blank, and gives the time of
/// approval; a rejected one says why in its notes.
pub open spec fn expense_companion_verdict(expense: ExpenseData) -> Verdict {
    if expense.status@ == "approved"@ {
        if lacks_text(expense.approved_by) {
            Err("Approved expenses must have approved_by field set"@)
        } else if expense.approved_at is None {
            Err("Approved expenses must have approved_at timestamp"@)
        } else {
            Ok(())
        }
    } else if expense.status@ == "rejected"@ {
        reject_if(
            lacks_text(expense.notes),
            "Rejected expenses must include rejection reason in notes"@,
        )
    } else {
        Ok(())
    }
}

/// A new expense is pending; a changed expense keeps its status or moves
/// along the graph, and then has what its status asks for.
pub open spec fn expense_status_verdict(
    current: Option<Result<ExpenseData, String>>,
    expense: ExpenseData,
) -> Verdict {
    let graph = expense_statuses();
    match current {
        Some(Err(failure)) => Err("Invalid previous expense data: "@ + failure@),
        Some(Ok(before)) => and_then(
            transition_verdict(graph, before.status@, expense.status@),
            expense_companion_verdict(expense),
        ),
        None => reject_if(
            !graph.may_start(expense.status@),
            "New expenses must have status 'pending'"@,
        ),
    }
}

/// Resubmitting an expense with its status unchanged asks for nothing but
/// what that status asks for.
pub proof fn lemma_expense_resubmission(before: ExpenseData, expense: ExpenseData)
    requires
        before.status@ == expense.status@,
    ensures
        expense_status_verdict(Some(Ok(before)), expense) == expense_companion_verdict(expense),
{
}

/// A change of status along no edge of the expense graph is rejected with
/// the transition error.
pub proof fn lemma_expense_transition_rejected(before: ExpenseData, expense: ExpenseData)
    requires
        before.status@ != expense.status@,
        !expense_statuses().allows(before.status@, expense.status@),
    ensures
        expense_status_verdict(Some(Ok(before)), expense) == transition_verdict(
            expense_statuses(),
            before.status@,
            expense.status@,
        ),
        expense_status_verdict(Some(Ok(before)), expense) is Err,
{
}

fn check_expense_companions(expense: &ExpenseData) -> (res: Result<(), String>)
    ensures
        outcome(res) == expense_companion_verdict(*expense),
{
    if str_equal(expense.status.as_str(), "approved") {
        if is_lacking(&expense.approved_by) {
            return rejection("Approved expenses must have approved_by field set");
        }
        if expense.approved_at.is_none() {
            return rejection("Approved expenses must have approved_at timestamp");
        }
    } else if str_equal(expense.status.as_str(), "rejected") {
        if is_lacking(&expense.notes) {
            return rejection("Rejected expenses must include rejection reason in notes");
        }
    }
    Ok(())
}

/// Checks the status of an expense against the record as it stands.
pub fn validate_expense_status_transition(
    context: &SetDocContext<ExpenseData>,
    expense: &ExpenseData,
) -> (res: Result<(), String>)
    ensures
        outcome(res) == expense_status_verdict(context.current, *expense),
{
    let graph = expense_graph();
    match &context.current {
        Some(Err(failure)) => unreadable("Invalid previous expense data: ", failure),
        Some(Ok(before)) => {
            match graph.check_transition(before.status.as_str(), expense.status.as_str()) {
                Err(message) => Err(message),
                Ok(_) => check_expense_companions(expense),
            }
        },
        None => {
            if !graph.may_start(expense.status.as_str()) {
                return rejection("New expenses must have status 'pending'");
            }
            Ok(())
        },
    }
}

// ---------------------------------------------------------------------------
// Uniqueness and references to other records
// ---------------------------------------------------------------------------

/// The rejection of a reference that another expense has.
pub open spec fn expense_reference_taken(reference: Seq<char>) -> Seq<char> {
    quoting("Expense reference '"@, reference, "' already exists"@)
}

/// No other expense has the reference, by the store's answer.
pub open spec fn expense_unique_verdict(key: Seq<char>, reference: Seq<char>, answer: Answer) -> Verdict {
    unique_verdict(answer, key, expense_reference_taken(reference))
}

/// Reads the store's answer on the expenses that have `reference`.
pub fn check_expense_reference_unique(key: &str, reference: &str, answer: &Answer) -> (res: Result<
    (),
    String,
>)
    ensures
        outcome(res) == expense_unique_verdict(key@, reference@, *answer),
{
    check_unique(answer, key, "Expense reference '", reference, "' already exists")
}

/// The question for the expenses that have `reference`.
pub fn expense_reference_query(reference: &str) -> (query: Query)
    ensures
        query@ == description_query("expenses"@, field_pattern("reference"@, reference@)),
{
    query_by_description("expenses", pattern_for("reference", reference))
}

/// Asks the store whether another expense has `reference`.
pub fn validate_expense_reference_uniqueness(context: &SetDocContext<ExpenseData>, reference: &str) -> (res:
    Result<(), String>)
    ensures
        exists|answer: Answer|
            outcome(res) == #[trigger] expense_unique_verdict(context.key@, reference@, answer),
{
    let answer = ask(&expense_reference_query(reference));
    let res = check_expense_reference_unique(context.key.as_str(), reference, &answer);
    proof {
        assert(outcome(res) == expense_unique_verdict(context.key@, reference@, answer));
    }
    res
}

/// The pattern by which the expenses of one vendor, amount and date are
/// found: the vendor in lowercase, the amount in its shortest form.
pub open spec fn duplicate_pattern(expense: ExpenseData, vendor: Seq<char>) -> Seq<char> {
    "vendor_name="@ + lowercase_of(vendor) + "*amount="@ + short_text(expense.amount as int)
        + "*payment_date="@ + expense.payment_date@ + ";"@
}

/// The rejection of an expense that looks like one already recorded. The
/// text is fixed character for character: before the amount stand the three
/// characters `â‚¦`, where the other rejections write the sign `₦`.
pub open spec fn duplicate_message(expense: ExpenseData, vendor: Seq<char>) -> Seq<char> {
    "Potential duplicate expense: Same vendor '"@ + vendor + "', amount â‚¦"@ + short_text(
        expense.amount as int,
    ) + ", and date "@ + expense.payment_date@ + " already exists"@
}

/// No other expense has the same vendor, amount and date, by the store's
/// answer. An expense without a vendor asks nothing of the store.
pub open spec fn expense_duplicate_verdict(key: Seq<char>, expense: ExpenseData, answer: Answer) -> Verdict {
    match expense.vendor_name {
        Some(vendor) => unique_verdict(answer, key, duplicate_message(expense, vendor@)),
        None => Ok(()),
    }
}

/// Builds the pattern by which the expenses of one vendor, amount and date
/// are found.
pub fn build_duplicate_pattern(expense: &ExpenseData, vendor: &str) -> (out: String)
    ensures
        out@ == duplicate_pattern(*expense, vendor@),
{
    let mut out = "vendor_name=".to_string();
    let lower = lowercase(vendor);
    out.append(lower.as_str());
    out.append("*amount=");
    push_short(&mut out, expense.amount);
    out.append("*payment_date=");
    out.append(expense.payment_date.as_str());
    out.append(";");
    out
}

/// The question for the expenses of the vendor `vendor` with the amount and
/// the date of `expense`.
pub fn expense_duplicate_query(expense: &ExpenseData, vendor: &str) -> (query: Query)
    ensures
        query@ == description_query("expenses"@, duplicate_pattern(*expense, vendor@)),
{
    query_by_description("expenses", build_duplicate_pattern(expense, vendor))
}

/// Reads the store's answer on the expenses of the same vendor, amount and
/// date.
pub fn check_potential_duplicate_expense(key: &str, expense: &ExpenseData, answer: &Answer) -> (res:
    Result<(), String>)
    ensures
        outcome(res) == expense_duplicate_verdict(key@, *expense, *answer),
{
    match &expense.vendor_name {
        None => Ok(()),
        Some(vendor) => {
            match answer {
                Err(failure) => Err(failure.clone()),
                Ok(found) => {
                    if has_conflict(found, key) {
                        let mut message = "Potential duplicate expense: Same vendor '".to_string();
                        message.append(vendor.as_str());
                        message.append("', amount â‚¦");
                        push_short(&mut message, expense.amount);
                        message.append(", and date ");
                        message.append(expense.payment_date.as_str());
                        message.append(" already exists");
                        return Err(message);
                    }
                    Ok(())
                },
            }
        },
    }
}

/// Asks the store, for an expense with a vendor, whether another expense has
/// the same vendor, amount and date.
pub fn validate_potential_duplicate_expense(
    context: &SetDocContext<ExpenseData>,
    expense: &ExpenseData,
) -> (res: Result<(), String>)
    ensures
        exists|answer: Answer|
            outcome(res) == #[trigger] expense_duplicate_verdict(context.key@, *expense, answer),
{
    match &expense.vendor_name {
        None => {
            proof {
                let answer: Answer = arbitrary();
                assert(outcome(Ok(())) == expense_duplicate_verdict(context.key@, *expense, answer));
            }
            Ok(())
        },
        Some(vendor) => {
            let answer = ask(&expense_duplicate_query(expense, vendor.as_str()));
            let res = check_potential_duplicate_expense(context.key.as_str(), expense, &answer);
            proof {
                assert(outcome(res) == expense_duplicate_verdict(context.key@, *expense, answer));
            }
            res
        },
    }
}

/// The reference is unique, and no other expense looks like this one, by
/// the store's answers.
pub open spec fn expense_business_verdict(
    key: Seq<char>,
    expense: ExpenseData,
    references: Answer,
    duplicates: Answer,
) -> Verdict {
    and_then(
        expense_unique_verdict(key, expense.reference@, references),
        expense_duplicate_verdict(key, expense, duplicates),
    )
}

/// Asks the store whether the reference of the expense is taken, and then
/// whether another expense looks like it.
pub fn validate_expense_business_rules(context: &SetDocContext<ExpenseData>, expense: &ExpenseData) -> (res:
    Result<(), String>)
    ensures
        exists|references: Answer, duplicates: Answer|
            outcome(res) == #[trigger] expense_business_verdict(
                context.key@,
                *expense,
                references,
                duplicates,
            ),
{
    let first = validate_expense_reference_uniqueness(context, expense.reference.as_str());
    let ghost references = choose|answer: Answer|
        outcome(first) == #[trigger] expense_unique_verdict(
            context.key@,
            expense.reference@,
            answer,
        );
    match first {
        Err(message) => {
            proof {
                let duplicates: Answer = arbitrary();
                assert(outcome(Err(message)) == expense_business_verdict(
                    context.key@,
                    *expense,
                    references,
                    duplicates,
                ));
            }
            return Err(message);
        },
        Ok(_) => {},
    }
    let res = validate_potential_duplicate_expense(context, expense);
    proof {
        let duplicates = choose|answer: Answer|
            outcome(res) == #[trigger] expense_duplicate_verdict(context.key@, *expense, answer);
        assert(outcome(res) == expense_business_verdict(
            context.key@,
            *expense,
            references,
            duplicates,
        ));
    }
    res
}

/// The rejection of an expense whose category does not exist.
pub open spec fn category_missing(category_id: Seq<char>) -> Seq<char> {
    quoting("Expense category '"@, category_id, "' not found"@)
}

/// The category of an expense exists, by the store's answer.
pub open spec fn expense_category_verdict(category_id: Seq<char>, answer: Answer) -> Verdict {
    present_verdict(answer, category_missing(category_id))
}

/// Reads the store's answer on the categories with the key `category_id`.
pub fn check_expense_category_exists(category_id: &str, answer: &Answer) -> (res: Result<(), String>)
    ensures
        outcome(res) == expense_category_verdict(category_id@, *answer),
{
    check_present(answer, "Expense category '", category_id, "' not found")
}

/// The question for the categories with the key `category_id`.
pub fn expense_category_query(category_id: &str) -> (query: Query)
    ensures
        query@ == key_query("expense_categories"@, category_id@),
{
    query_by_key("expense_categories", category_id)
}

/// Asks the store whether the category with the key `category_id` exists.
pub fn validate_expense_category_exists(category_id: &str) -> (res: Result<(), String>)
    ensures
        exists|answer: Answer|
            outcome(res) == #[trigger] expense_category_verdict(category_id@, answer),
{
    let answer = ask(&expense_category_query(category_id));
    let res = check_expense_category_exists(category_id, &answer);
    proof {
        assert(outcome(res) == expense_category_verdict(category_id@, answer));
    }
    res
}

// ---------------------------------------------------------------------------
// Formats
// ---------------------------------------------------------------------------

/// The ways in which an expense can be paid.
pub open spec fn expense_methods() -> Seq<Seq<char>> {
    seq!["cash"@, "bank_transfer"@, "cheque"@, "pos"@, "online"@]
}

/// The method of payment is a known one; the reference begins with `EXP-`
/// and has the shape of an expense reference; the date has the shape of a
/// date.
pub open spec fn expense_formats_verdict(expense: ExpenseData) -> Verdict {
    and_then(
        choice_verdict("payment method"@, expense.payment_method@, expense_methods()),
        if !"EXP-"@.is_prefix_of(expense.reference@) {
            Err("Expense reference must start with 'EXP-'"@)
        } else if !expense_reference_ok(expense.reference@) {
            Err("Expense reference must be in format EXP-YYYY-XXXXXXXX"@)
        } else if !date_format_ok(expense.payment_date@) {
            Err("Invalid payment date format. Must be YYYY-MM-DD"@)
        } else {
            Ok(())
        },
    )
}

/// Checks the formats of an expense.
pub fn validate_expense_formats(expense: &ExpenseData) -> (res: Result<(), String>)
    ensures
        outcome(res) == expense_formats_verdict(*expense),
{
    let methods: Vec<&'static str> = vec!["cash", "bank_transfer", "cheque", "pos", "online"];
    proof {
        assert(literal_views(methods@) =~= expense_methods());
    }
    match check_choice("payment method", expense.payment_method.as_str(), &methods) {
        Err(message) => {
            return Err(message);
        },
        Ok(_) => {},
    }
    if !str_starts_with(expense.reference.as_str(), "EXP-") {
        return rejection("Expense reference must start with 'EXP-'");
    }
    if !is_valid_expense_reference(expense.reference.as_str()) {
        return rejection("Expense reference must be in format EXP-YYYY-XXXXXXXX");
    }
    if !is_valid_date_format(expense.payment_date.as_str()) {
        return rejection("Invalid payment date format. Must be YYYY-MM-DD");
    }
    Ok(())
}

// ---------------------------------------------------------------------------
// Approval
// ---------------------------------------------------------------------------

/// An approval is given after the expense was created, and no later than an
/// hour after `now`.
pub open spec fn approval_timestamp_verdict(approved_at: u64, created_at: u64, now: u64) -> Verdict {
    if approved_at <= created_at {
        Err("Approval timestamp must be after expense creation time"@)
    } else if approved_at > wrap64(now + ONE_HOUR) {
        Err("Approval timestamp cannot be in the future"@)
    } else {
        Ok(())
    }
}

/// Checks the time of an approval, with `now` for the present.
pub fn check_approval_timestamp(approved_at: u64, created_at: u64, now: u64) -> (res: Result<
    (),
    String,
>)
    ensures
        outcome(res) == approval_timestamp_verdict(approved_at, created_at, now),
{
    if approved_at <= created_at {
        return rejection("Approval timestamp must be after expense creation time");
    }
    let limit: u128 = (now as u128 + ONE_HOUR as u128) % 0x1_0000_0000_0000_0000;
    if approved_at as u128 > limit {
        return rejection("Approval timestamp cannot be in the future");
    }
    Ok(())
}

/// Checks the time of an approval against the host's clock.
pub fn validate_approval_timestamp(approved_at: u64, created_at: u64) -> (res: Result<(), String>)
    ensures
        exists|now: u64|
            outcome(res) == #[trigger] approval_timestamp_verdict(approved_at, created_at, now),
{
    let now = current_time();
    let res = check_approval_timestamp(approved_at, created_at, now);
    proof {
        assert(outcome(res) == approval_timestamp_verdict(approved_at, created_at, now));
    }
    res
}

/// Nothing more is asked of an approved expense for its amount.
pub fn validate_high_value_approval_requirements(expense: &ExpenseData) -> (res: Result<(), String>)
    ensures
        res is Ok,
{
    Ok(())
}

/// Nothing more is asked of a paid expense.
pub fn validate_paid_expense_requirements(expense: &ExpenseData) -> (res: Result<(), String>)
    ensures
        res is Ok,
{
    Ok(())
}

/// The rejection of a status that no expense can have.
pub open spec fn unknown_expense_status(status: Seq<char>) -> Seq<char> {
    quoting("Invalid expense status: '"@, status, "'"@)
}

/// What the status of an expense asks of its approval fields and notes.
///
/// A pending expense has neither approver nor time of approval. An approved
/// one has both, and the time is in order. A rejected one says why in its
/// notes, in ten bytes or more, and has no time of approval. A paid one has
/// approver and time of approval. Any other status is rejected.
pub open spec fn expense_approval_verdict(expense: ExpenseData, now: u64) -> Verdict {
    let status = expense.status@;
    if status == "pending"@ {
        if expense.approved_by is Some {
            Err("Pending expenses cannot have approved_by field set"@)
        } else if expense.approved_at is Some {
            Err("Pending expenses cannot have approved_at field set"@)
        } else {
            Ok(())
        }
    } else if status == "approved"@ {
        if lacks_text(expense.approved_by) {
            Err("Approved expenses must have approved_by field set"@)
        } else if expense.approved_at is None {
            Err("Approved expenses must have approved_at timestamp"@)
        } else {
            approval_timestamp_verdict(expense.approved_at->0, expense.created_at, now)
        }
    } else if status == "rejected"@ {
        if lacks_text(expense.notes) {
            Err("Rejected expenses must include rejection reason in notes"@)
        } else if expense.approved_at is Some {
            Err("Rejected expenses cannot have approved_at timestamp"@)
        } else if byte_len(expense.notes->0@) < MIN_REASON_LENGTH {
            Err("Rejection reason must be at least 10 characters"@)
        } else {
            Ok(())
        }
    } else if status == "paid"@ {
        reject_if(
            expense.approved_by is None || expense.approved_at is None,
            "Paid expenses must have been approved first"@,
        )
    } else {
        Err(unknown_expense_status(status))
    }
}

/// Checks the approval fields of an expense for its status, with `now` for
/// the present.
pub fn validate_expense_approval_workflow(expense: &ExpenseData, now: u64) -> (res: Result<
    (),
    String,
>)
    ensures
        outcome(res) == expense_approval_verdict(*expense, now),
{
    let status = expense.status.as_str();
    if str_equal(status, "pending") {
        if expense.approved_by.is_some() {
            return rejection("Pending expenses cannot have approved_by field set");
        }
        if expense.approved_at.is_some() {
            return rejection("Pending expenses cannot have approved_at field set");
        }
        Ok(())
    } else if str_equal(status, "approved") {
        if is_lacking(&expense.approved_by) {
            return rejection("Approved expenses must have approved_by field set");
        }
        match expense.approved_at {
            None => rejection("Approved expenses must have approved_at timestamp"),
            Some(approved_at) => {
                match check_approval_timestamp(approved_at, expense.created_at, now) {
                    Err(message) => Err(message),
                    Ok(_) => validate_high_value_approval_requirements(expense),
                }
            },
        }
    } else if str_equal(status, "rejected") {
        match &expense.notes {
            None => rejection("Rejected expenses must include rejection reason in notes"),
            Some(notes) => {
                if str_is_blank(notes.as_str()) {
                    return rejection("Rejected expenses must include rejection reason in notes");
                }
                if expense.approved_at.is_some() {
                    return rejection("Rejected expenses cannot have approved_at timestamp");
                }
                if str_byte_length(notes.as_str()) < MIN_REASON_LENGTH {
                    return rejection("Rejection reason must be at least 10 characters");
                }
                Ok(())
            },
        }
    } else if str_equal(status, "paid") {
        if expense.approved_by.is_none() || expense.approved_at.is_none() {
            return rejection("Paid expenses must have been approved first");
        }
        validate_paid_expense_requirements(expense)
    } else {
        Err(quote("Invalid expense status: '", status, "'"))
    }
}

// ---------------------------------------------------------------------------
// The whole check
// ---------------------------------------------------------------------------

/// What a write of an expense is judged by besides the record: the present,
/// and the store's answers on the expenses that have its reference, on the
/// expenses of the same vendor, amount and date, and on its category.
pub struct ExpenseFindings {
    pub now: u64,
    pub references: Answer,
    pub duplicates: Answer,
    pub categories: Answer,
}

/// The verdict on a write of an expense: a record that cannot be read is
/// rejected with the decoder's words; else the first of these that fails
/// rejects: the amount, the status, the uniqueness of the reference, the
/// look-alikes, the category, the formats, the approval.
pub open spec fn expense_verdict(context: SetDocContext<ExpenseData>, findings: ExpenseFindings) -> Verdict {
    match context.proposed {
        Err(failure) => Err("Invalid expense data format: "@ + failure@),
        Ok(expense) => and_then(
            expense_basic_fields_verdict(expense),
            and_then(
                expense_status_verdict(context.current, expense),
                and_then(
                    expense_business_verdict(
                        context.key@,
                        expense,
                        findings.references,
                        findings.duplicates,
                    ),
                    and_then(
                        expense_category_verdict(expense.category_id@, findings.categories),
                        and_then(
                            expense_formats_verdict(expense),
                            expense_approval_verdict(expense, findings.now),
                        ),
                    ),
                ),
            ),
        ),
    }
}

/// Decides on a write of an expense, given the present and the store's
/// answers.
pub fn check_expense_document(context: &SetDocContext<ExpenseData>, findings: &ExpenseFindings) -> (res:
    Result<(), String>)
    ensures
        outcome(res) == expense_verdict(*context, *findings),
{
    match &context.proposed {
        Err(failure) => unreadable("Invalid expense data format: ", failure),
        Ok(expense) => {
            let key = context.key.as_str();
            match validate_expense_basic_fields(expense) {
                Err(message) => {
                    return Err(message);
                },
                Ok(_) => {},
            }
            match validate_expense_status_transition(context, expense) {
                Err(message) => {
                    return Err(message);
                },
                Ok(_) => {},
            }
            match check_expense_reference_unique(key, expense.reference.as_str(), &findings.references) {
                Err(message) => {
                    return Err(message);
                },
                Ok(_) => {},
            }
            match check_potential_duplicate_expense(key, expense, &findings.duplicates) {
                Err(message) => {
                    return Err(message);
                },
                Ok(_) => {},
            }
            match check_expense_category_exists(expense.category_id.as_str(), &findings.categories) {
                Err(message) => {
                    return Err(message);
                },
                Ok(_) => {},
            }
            match validate_expense_formats(expense) {
                Err(message) => {
                    return Err(message);
                },
                Ok(_) => {},
            }
            validate_expense_approval_workflow(expense, findings.now)
        },
    }
}

/// Decides on a write of an expense. The clock is read and the store is
/// asked as the rules come to need them; the verdict is the one that
/// `expense_verdict` gives for what they said.
pub fn validate_expense_document(context: &SetDocContext<ExpenseData>) -> (res: Result<(), String>)
    ensures
        exists|findings: ExpenseFindings|
            outcome(res) == #[trigger] expense_verdict(*context, findings),
{
    let expense = match &context.proposed {
        Err(failure) => {
            let res = unreadable("Invalid expense data format: ", failure);
            proof {
                let findings: ExpenseFindings = arbitrary();
                assert(outcome(res) == expense_verdict(*context, findings));
            }
            return res;
        },
        Ok(expense) => expense,
    };
    match validate_expense_basic_fields(expense) {
        Err(message) => {
            proof {
                let findings: ExpenseFindings = arbitrary();
                assert(outcome(Err(message)) == expense_verdict(*context, findings));
            }
            return Err(message);
        },
        Ok(_) => {},
    }
    match validate_expense_status_transition(context, expense) {
        Err(message) => {
            proof {
                let findings: ExpenseFindings = arbitrary();
                assert(outcome(Err(message)) == expense_verdict(*context, findings));
            }
            return Err(message);
        },
        Ok(_) => {},
    }
    let business = validate_expense_business_rules(context, expense);
    let ghost (references, duplicates) = choose|references: Answer, duplicates: Answer|
        outcome(business) == #[trigger] expense_business_verdict(
            context.key@,
            *expense,
            references,
            duplicates,
        );
    match business {
        Err(message) => {
            proof {
                let findings = ExpenseFindings {
                    now: arbitrary(),
                    references,
                    duplicates,
                    categories: arbitrary(),
                };
                assert(outcome(Err(message)) == expense_verdict(*context, findings));
            }
            return Err(message);
        },
        Ok(_) => {},
    }
    let category = validate_expense_category_exists(expense.category_id.as_str());
    let ghost categories = choose|answer: Answer|
        outcome(category) == #[trigger] expense_category_verdict(expense.category_id@, answer);
    match category {
        Err(message) => {
            proof {
                let findings = ExpenseFindings {
                    now: arbitrary(),
                    references,
                    duplicates,
                    categories,
                };
                assert(outcome(Err(message)) == expense_verdict(*context, findings));
            }
            return Err(message);
        },
        Ok(_) => {},
    }
    match validate_expense_formats(expense) {
        Err(message) => {
            proof {
                let findings = ExpenseFindings {
                    now: arbitrary(),
                    references,
                    duplicates,
                    categories,
                };
                assert(outcome(Err(message)) == expense_verdict(*context, findings));
            }
            return Err(message);
        },
        Ok(_) => {},
    }
    let now = current_time();
    let res = validate_expense_approval_workflow(expense, now);
    proof {
        let findings = ExpenseFindings { now, references, duplicates, categories };
        assert(outcome(res) == expense_verdict(*context, findings));
    }
    res
}

/// A write that changes the status of an expense along no edge of the graph
/// is rejected; where the amount is in order, the rejection is the
/// transition error.
pub proof fn lemma_expense_off_graph_rejected(
    context: SetDocContext<ExpenseData>,
    before: ExpenseData,
    findings: ExpenseFindings,
)
    requires
        context.proposed is Ok,
        context.current == Some(Ok::<ExpenseData, String>(before)),
        before.status@ != context.proposed->Ok_0.status@,
        !expense_statuses().allows(before.status@, context.proposed->Ok_0.status@),
    ensures
        expense_verdict(context, findings) is Err,
        expense_basic_fields_verdict(context.proposed->Ok_0) is Ok ==> expense_verdict(
            context,
            findings,
        ) == transition_verdict(expense_statuses(), before.status@, context.proposed->Ok_0.status@),
{
}

// ---------------------------------------------------------------------------
// Categories
// ---------------------------------------------------------------------------

/// The rejection of a name that another category has.
pub open spec fn category_name_taken(name: Seq<char>) -> Seq<char> {
    quoting("Category name '"@, name, "' is already taken"@)
}

/// The pattern by which the categories with a name are found: the name in
/// lowercase.
pub open spec fn category_name_pattern(name: Seq<char>) -> Seq<char> {
    field_pattern("name"@, lowercase_of(name))
}

/// Builds the pattern by which the categories with a name are found.
pub fn build_category_name_pattern(name: &str) -> (out: String)
    ensures
        out@ == category_name_pattern(name@),
{
    let lower = lowercase(name);
    pattern_for("name", lower.as_str())
}

/// The question for the categories that have the name `name`.
pub fn category_name_query(name: &str) -> (query: Query)
    ensures
        query@ == description_query("expense_categories"@, category_name_pattern(name@)),
{
    query_by_description("expense_categories", build_category_name_pattern(name))
}

/// The name of a category has the shape of one.
pub open spec fn category_name_verdict(category: ExpenseCategoryData) -> Verdict {
    reject_if(
        !category_name_ok(category.name@),
        "Category name must be 3-100 characters and contain only letters, numbers, spaces, and basic punctuation"@,
    )
}

/// No other category has the name, by the store's answer.
pub open spec fn category_unique_verdict(
    key: Seq<char>,
    category: ExpenseCategoryData,
    answer: Answer,
) -> Verdict {
    unique_verdict(answer, key, category_name_taken(category.name@))
}

/// The rejection of a description that is too long: it gives the length.
pub open spec fn description_too_long(length: nat) -> Seq<char> {
    "Category description cannot exceed 1000 characters (current length: "@ + decimal_text(length)
        + ")"@
}

/// A description takes a thousand bytes at most; a budget code that is not
/// blank has the shape of one.
pub open spec fn category_details_verdict(category: ExpenseCategoryData) -> Verdict {
    and_then(
        match category.description {
            Some(text) => reject_if(
                byte_len(text@) > MAX_DESCRIPTION_LENGTH,
                description_too_long(byte_len(text@)),
            ),
            None => Ok(()),
        },
        match category.budget_code {
            Some(code) => reject_if(
                !is_blank(code@) && !budget_code_ok(code@),
                "Budget code must be in format: XXX-000 (e.g., ADM-001)"@,
            ),
            None => Ok(()),
        },
    )
}

/// The verdict on a write of a category, given the store's answer on the
/// categories that have its name: a record that cannot be read is rejected
/// with the decoder's words; else the first of these that fails rejects: the
/// shape of the name, its uniqueness, the description, the budget code.
pub open spec fn category_verdict(context: SetDocContext<ExpenseCategoryData>, answer: Answer) -> Verdict {
    match context.proposed {
        Err(failure) => Err("Invalid expense category data format: "@ + failure@),
        Ok(category) => and_then(
            category_name_verdict(category),
            and_then(
                category_unique_verdict(context.key@, category, answer),
                category_details_verdict(category),
            ),
        ),
    }
}

fn check_category_name(category: &ExpenseCategoryData) -> (res: Result<(), String>)
    ensures
        outcome(res) == category_name_verdict(*category),
{
    if !is_valid_category_name(category.name.as_str()) {
        return rejection(
            "Category name must be 3-100 characters and contain only letters, numbers, spaces, and basic punctuation",
        );
    }
    Ok(())
}

fn check_category_details(category: &ExpenseCategoryData) -> (res: Result<(), String>)
    ensures
        outcome(res) == category_details_verdict(*category),
{
    match &category.description {
        Some(text) => {
            let length = str_byte_length(text.as_str());
            if length > MAX_DESCRIPTION_LENGTH {
                let mut message =
                    "Category description cannot exceed 1000 characters (current length: ".to_string();
                push_decimal(&mut message, length);
                message.append(")");
                return Err(message);
            }
        },
        None => {},
    }
    match &category.budget_code {
        Some(code) => {
            if !str_is_blank(code.as_str()) && !is_valid_budget_code(code.as_str()) {
                return rejection("Budget code must be in format: XXX-000 (e.g., ADM-001)");
            }
        },
        None => {},
    }
    Ok(())
}

/// Reads the store's answer on the categories that have the name of
/// `category`.
pub fn check_category_name_unique(key: &str, category: &ExpenseCategoryData, answer: &Answer) -> (res:
    Result<(), String>)
    ensures
        outcome(res) == category_unique_verdict(key@, *category, *answer),
{
    check_unique(answer, key, "Category name '", category.name.as_str(), "' is already taken")
}

/// Decides on a write of a category, given the store's answer.
pub fn check_expense_category_document(
    context: &SetDocContext<ExpenseCategoryData>,
    answer: &Answer,
) -> (res: Result<(), String>)
    ensures
        outcome(res) == category_verdict(*context, *answer),
{
    match &context.proposed {
        Err(failure) => unreadable("Invalid expense category data format: ", failure),
        Ok(category) => {
            match check_category_name(category) {
                Err(message) => {
                    return Err(message);
                },
                Ok(_) => {},
            }
            match check_category_name_unique(context.key.as_str(), category, answer) {
                Err(message) => {
                    return Err(message);
                },
                Ok(_) => {},
            }
            check_category_details(category)
        },
    }
}

/// Decides on a write of a category. The store is asked once the name has
/// the shape of one; the verdict is the one that `category_verdict` gives
/// for its answer.
pub fn validate_expense_category_document(context: &SetDocContext<ExpenseCategoryData>) -> (res:
    Result<(), String>)
    ensures
        exists|answer: Answer| outcome(res) == #[trigger] category_verdict(*context, answer),
{
    match &context.proposed {
        Err(failure) => {
            let res = unreadable("Invalid expense category data format: ", failure);
            proof {
                let answer: Answer = arbitrary();
                assert(outcome(res) == category_verdict(*context, answer));
            }
            res
        },
        Ok(category) => {
            match check_category_name(category) {
                Err(message) => {
                    proof {
                        let answer: Answer = arbitrary();
                        assert(outcome(Err(message)) == category_verdict(*context, answer));
                    }
                    return Err(message);
                },
                Ok(_) => {},
            }
            let answer = ask(&category_name_query(category.name.as_str()));
            match check_category_name_unique(context.key.as_str(), category, &answer) {
                Err(message) => {
                    proof {
                        assert(outcome(Err(message)) == category_verdict(*context, answer));
                    }
                    return Err(message);
                },
                Ok(_) => {},
            }
            let res = check_category_details(category);
            proof {
                assert(outcome(res) == category_verdict(*context, answer));
            }
            res
        },
    }
}

} // verus!
