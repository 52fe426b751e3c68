//! Payments of fees.

use vstd::prelude::*;
use crate::context::Answer;
use crate::context::SetDocContext;
use crate::money::agree;
use crate::money::agrees_with;
use crate::money::fixed_text;
use crate::money::net_total;
use crate::money::push_fixed;
use crate::money::push_fixed_total;
use crate::money::sum_of;
use crate::status::payment_graph;
use crate::status::payment_statuses;
use crate::status::transition_verdict;
use crate::store::ask;
use crate::store::description_query;
use crate::store::query_by_description;
use crate::store::Query;
use crate::store::has_conflict;
use crate::store::field_pattern;
use crate::store::pattern_for;
use crate::store::unique_verdict;
use crate::text::decimal_text;
use crate::text::is_blank;
use crate::text::is_one_of;
use crate::text::join_strs;
use crate::text::joined;
use crate::text::literal_views;
use crate::text::push_decimal;
use crate::text::str_equal;
use crate::text::str_is_blank;
use crate::text::str_starts_with;
use crate::validation_utils::date_format_ok;
use crate::validation_utils::is_valid_date_format;
use crate::validation_utils::is_valid_payment_reference;
use crate::validation_utils::payment_reference_ok;
use crate::verdict::and_then;
use crate::verdict::check_choice;
use crate::verdict::choice_message;
use crate::verdict::choice_rejection;
use crate::verdict::choice_verdict;
use crate::verdict::is_lacking;
use crate::verdict::lacks_text;
use crate::verdict::outcome;
use crate::verdict::quote;
use crate::verdict::quoting;
use crate::verdict::reject_if;
use crate::verdict::rejection;
use crate::verdict::unreadable;
use crate::verdict::Verdict;

verus! {

/// A payment of fees by or for a student. Amounts are in hundredths of the
/// currency unit.
#[derive(Clone, Debug)]
pub struct PaymentData {
    pub student_id: String,
    pub student_name: String,
    pub class_id: String,
    pub class_name: String,
    pub fee_assignment_id: String,
    pub amount: i64,
    pub payment_method: String,
    pub payment_date: String,
    pub fee_allocations: Vec<PaymentAllocation>,
    pub reference: String,
    pub transaction_id: Option<String>,
    pub paid_by: Option<String>,
    pub status: String,
    pub notes: Option<String>,
    pub receipt_url: Option<String>,
    pub recorded_by: String,
    pub created_at: u64,
    pub updated_at: u64,
}

/// The part of a payment that goes to one category of fees.
#[derive(Clone, Debug)]
pub struct PaymentAllocation {
    pub category_id: String,
    pub category_name: String,
    pub fee_type: String,
    pub amount: i64,
}

/// The most allocations that one payment may hold.
pub const MAX_ALLOCATIONS: usize = 20;

// ---------------------------------------------------------------------------
// Amount, date, method
// ---------------------------------------------------------------------------

/// The amount of a payment is positive.
pub open spec fn payment_core_fields_verdict(payment: PaymentData) -> Verdict {
    reject_if(payment.amount <= 0, "Payment amount must be greater than zero"@)
}

/// Checks the amount of a payment.
pub fn validate_payment_core_fields(payment: &PaymentData) -> (res: Result<(), String>)
    ensures
        outcome(res) == payment_core_fields_verdict(*payment),
{
    if payment.amount <= 0 {
        return rejection("Payment amount must be greater than zero");
    }
    Ok(())
}

/// The date of a payment has the shape of a date.
pub open spec fn payment_dates_verdict(payment: PaymentData) -> Verdict {
    reject_if(
        !date_format_ok(payment.payment_date@),
        "Invalid payment date format. Must be YYYY-MM-DD"@,
    )
}

/// Checks the date of a payment.
pub fn validate_payment_dates(payment: &PaymentData) -> (res: Result<(), String>)
    ensures
        outcome(res) == payment_dates_verdict(*payment),
{
    if !is_valid_date_format(payment.payment_date.as_str()) {
        return rejection("Invalid payment date format. Must be YYYY-MM-DD");
    }
    Ok(())
}

/// The ways in which fees can be paid.
pub open spec fn payment_methods() -> Seq<Seq<char>> {
    seq!["cash"@, "bank_transfer"@, "pos"@, "online"@, "cheque"@]
}

/// The method of a payment is one of the known ones.
pub open spec fn payment_method_verdict(payment: PaymentData) -> Verdict {
    choice_verdict("payment method"@, payment.payment_method@, payment_methods())
}

/// Checks the method of a payment.
pub fn validate_payment_method_constraints(payment: &PaymentData) -> (res: Result<(), String>)
    ensures
        outcome(res) == payment_method_verdict(*payment),
{
    let methods: Vec<&'static str> = vec!["cash", "bank_transfer", "pos", "online", "cheque"];
    proof {
        assert(literal_views(methods@) =~= payment_methods());
    }
    check_choice("payment method", payment.payment_method.as_str(), &methods)
}

// ---------------------------------------------------------------------------
// Status
// ---------------------------------------------------------------------------

/// What the status of a payment asks of its other fields: a cancelled or a
/// refunded payment says why in its notes.
pub open spec fn payment_companion_verdict(payment: PaymentData) -> Verdict {
    if payment.status@ == "cancelled"@ {
        reject_if(
            lacks_text(payment.notes),
            "Cancelled payments must include cancellation reason in notes"@,
        )
    } else if payment.status@ == "refunded"@ {
        reject_if(
            lacks_text(payment.notes),
            "Refunded payments must include refund reason in notes"@,
        )
    } else {
        Ok(())
    }
}

/// The status of a payment is a known one; a new payment has an initial
/// status; a changed payment keeps its status or moves along the graph, and
/// then has what its status asks for.
pub open spec fn payment_status_verdict(
    current: Option<Result<PaymentData, String>>,
    payment: PaymentData,
) -> Verdict {
    let graph = payment_statuses();
    if !graph.knows(payment.status@) {
        Err(choice_message("payment status"@, payment.status@, graph.statuses()))
    } else {
        match current {
            Some(Err(failure)) => Err("Invalid previous payment data: "@ + failure@),
            Some(Ok(before)) => and_then(
                transition_verdict(graph, before.status@, payment.status@),
                payment_companion_verdict(payment),
            ),
            None => reject_if(
                !graph.may_start(payment.status@),
                "New payments must have status 'pending' or 'confirmed'"@,
            ),
        }
    }
}

/// Resubmitting a payment with its status unchanged asks for nothing but
/// what that status asks for.
pub proof fn lemma_payment_resubmission(before: PaymentData, payment: PaymentData)
    requires
        payment_statuses().knows(payment.status@),
        before.status@ == payment.status@,
    ensures
        payment_status_verdict(Some(Ok(before)), payment) == payment_companion_verdict(payment),
{
}

/// A change of status along no edge of the payment graph is rejected with
/// the transition error.
pub proof fn lemma_payment_transition_rejected(before: PaymentData, payment: PaymentData)
    requires
        payment_statuses().knows(payment.status@),
        before.status@ != payment.status@,
        !payment_statuses().allows(before.status@, payment.status@),
    ensures
        payment_status_verdict(Some(Ok(before)), payment) == transition_verdict(
            payment_statuses(),
            before.status@,
            payment.status@,
        ),
        payment_status_verdict(Some(Ok(before)), payment) is Err,
{
}

fn check_payment_companions(payment: &PaymentData) -> (res: Result<(), String>)
    ensures
        outcome(res) == payment_companion_verdict(*payment),
{
    if str_equal(payment.status.as_str(), "cancelled") {
        if is_lacking(&payment.notes) {
            return rejection("Cancelled payments must include cancellation reason in notes");
        }
    } else if str_equal(payment.status.as_str(), "refunded") {
        if is_lacking(&payment.notes) {
            return rejection("Refunded payments must include refund reason in notes");
        }
    }
    Ok(())
}

/// Checks the status of a payment against the record as it stands.
pub fn validate_payment_status_transitions(
    context: &SetDocContext<PaymentData>,
    payment: &PaymentData,
) -> (res: Result<(), String>)
    ensures
        outcome(res) == payment_status_verdict(context.current, *payment),
{
    let graph = payment_graph();
    if !graph.knows(payment.status.as_str()) {
        return choice_rejection("payment status", payment.status.as_str(), graph.statuses_text());
    }
    match &context.current {
        Some(Err(failure)) => unreadable("Invalid previous payment data: ", failure),
        Some(Ok(before)) => {
            match graph.check_transition(before.status.as_str(), payment.status.as_str()) {
                Err(message) => Err(message),
                Ok(_) => check_payment_companions(payment),
            }
        },
        None => {
            if !graph.may_start(payment.status.as_str()) {
                return rejection("New payments must have status 'pending' or 'confirmed'");
            }
            Ok(())
        },
    }
}

// ---------------------------------------------------------------------------
// Allocations
// ---------------------------------------------------------------------------

/// The kinds of fees.
pub open spec fn fee_types() -> Seq<Seq<char>> {
    seq![
        "tuition"@,
        "uniform"@,
        "feeding"@,
        "transport"@,
        "books"@,
        "sports"@,
        "development"@,
        "examination"@,
        "pta"@,
        "computer"@,
        "library"@,
        "laboratory"@,
        "lesson"@,
        "other"@,
    ]
}

/// The amounts of a list of allocations.
pub open spec fn allocation_amounts(items: Seq<PaymentAllocation>) -> Seq<i64> {
    Seq::new(items.len(), |i: int| items[i].amount)
}

/// The rejection of an allocation for what it lacks: it gives the number of
/// the allocation, counted from 1.
pub open spec fn allocation_lacks(number: nat, what: Seq<char>) -> Seq<char> {
    "Fee allocation "@ + decimal_text(number) + " must have a "@ + what
}

/// The rejection of an allocation for its kind of fee.
pub open spec fn fee_type_message(fee_type: Seq<char>, number: nat) -> Seq<char> {
    "Invalid fee type '"@ + fee_type + "' in allocation "@ + decimal_text(number)
        + ". Must be one of: "@ + joined(fee_types(), ", "@)
}

/// One allocation names its category by key and by name, and has a known
/// kind of fee.
pub open spec fn allocation_verdict(item: PaymentAllocation, number: nat) -> Verdict {
    if is_blank(item.category_id@) {
        Err(allocation_lacks(number, "category ID"@))
    } else if is_blank(item.category_name@) {
        Err(allocation_lacks(number, "category name"@))
    } else if is_blank(item.fee_type@) {
        Err(allocation_lacks(number, "fee type"@))
    } else if !fee_types().contains(item.fee_type@) {
        Err(fee_type_message(item.fee_type@, number))
    } else {
        Ok(())
    }
}

/// The rejection of the first allocation in `items` that has a fault.
pub open spec fn each_allocation_verdict(items: Seq<PaymentAllocation>) -> Verdict
    decreases items.len(),
{
    if items.len() == 0 {
        Ok(())
    } else {
        and_then(
            each_allocation_verdict(items.drop_last()),
            allocation_verdict(items.last(), items.len()),
        )
    }
}

/// The rejection of a payment whose allocations do not add up to it: it
/// quotes the amount and the sum.
pub open spec fn allocation_sum_message(amount: int, sum: int) -> Seq<char> {
    "Payment amount (₦"@ + fixed_text(amount) + ") must match sum of fee allocations (₦"@
        + fixed_text(sum) + ")"@
}

/// A payment has one to twenty allocations, which add up to its amount
/// within the tolerance and are each in order.
pub open spec fn payment_allocations_verdict(payment: PaymentData) -> Verdict {
    let items = payment.fee_allocations@;
    let sum = sum_of(allocation_amounts(items));
    if items.len() == 0 {
        Err("Payment must have at least one fee allocation"@)
    } else if items.len() > MAX_ALLOCATIONS {
        Err("Payment cannot have more than 20 fee allocations"@)
    } else if !agree(payment.amount as int, sum) {
        Err(allocation_sum_message(payment.amount as int, sum))
    } else {
        each_allocation_verdict(items)
    }
}

fn amounts_of(items: &Vec<PaymentAllocation>) -> (out: Vec<i64>)
    ensures
        out@ == allocation_amounts(items@),
{
    let mut out: Vec<i64> = Vec::new();
    let mut i: usize = 0;
    while i < items.len()
        invariant
            i <= items.len(),
            out@.len() == i,
            forall|j: int| 0 <= j < i ==> out@[j] == (#[trigger] items@[j]).amount,
        decreases items.len() - i,
    {
        out.push(items[i].amount);
        i = i + 1;
    }
    proof {
        assert(out@ =~= allocation_amounts(items@));
    }
    out
}

fn allocation_lacking(number: usize, what: &str) -> (res: Result<(), String>)
    ensures
        outcome(res) == Err::<(), Seq<char>>(allocation_lacks(number as nat, what@)),
{
    let mut message = "Fee allocation ".to_string();
    push_decimal(&mut message, number as u128);
    message.append(" must have a ");
    message.append(what);
    Err(message)
}

fn check_allocation(item: &PaymentAllocation, number: usize) -> (res: Result<(), String>)
    ensures
        outcome(res) == allocation_verdict(*item, number as nat),
{
    if str_is_blank(item.category_id.as_str()) {
        return allocation_lacking(number, "category ID");
    }
    if str_is_blank(item.category_name.as_str()) {
        return allocation_lacking(number, "category name");
    }
    if str_is_blank(item.fee_type.as_str()) {
        return allocation_lacking(number, "fee type");
    }
    let kinds: Vec<&'static str> = vec![
        "tuition",
        "uniform",
        "feeding",
        "transport",
        "books",
        "sports",
        "development",
        "examination",
        "pta",
        "computer",
        "library",
        "laboratory",
        "lesson",
        "other",
    ];
    proof {
        assert(literal_views(kinds@) =~= fee_types());
    }
    if !is_one_of(item.fee_type.as_str(), &kinds) {
        let mut message = "Invalid fee type '".to_string();
        message.append(item.fee_type.as_str());
        message.append("' in allocation ");
        push_decimal(&mut message, number as u128);
        message.append(". Must be one of: ");
        let all = join_strs(&kinds, ", ");
        message.append(all.as_str());
        return Err(message);
    }
    Ok(())
}

/// Checks the allocations of a payment.
pub fn validate_payment_allocations(payment: &PaymentData) -> (res: Result<(), String>)
    ensures
        outcome(res) == payment_allocations_verdict(*payment),
{
    let items = &payment.fee_allocations;
    if items.len() == 0 {
        return rejection("Payment must have at least one fee allocation");
    }
    if items.len() > MAX_ALLOCATIONS {
        return rejection("Payment cannot have more than 20 fee allocations");
    }
    let amounts = amounts_of(items);
    let none: Vec<i64> = Vec::new();
    let sum = net_total(0, &amounts, &none);
    if !agrees_with(payment.amount, &sum) {
        let mut message = "Payment amount (₦".to_string();
        push_fixed(&mut message, payment.amount);
        message.append(") must match sum of fee allocations (₦");
        push_fixed_total(&mut message, &sum);
        message.append(")");
        return Err(message);
    }
    let mut i: usize = 0;
    while i < items.len()
        invariant
            i <= items.len(),
            0 < items.len() <= MAX_ALLOCATIONS,
            items@ == payment.fee_allocations@,
            agree(payment.amount as int, sum_of(allocation_amounts(items@))),
            each_allocation_verdict(items@.take(i as int)) is Ok,
        decreases items.len() - i,
    {
        proof {
            assert(items@.take(i + 1).drop_last() =~= items@.take(i as int));
            assert(items@.take(i + 1).last() == items@[i as int]);
        }
        match check_allocation(&items[i], i + 1) {
            Err(message) => {
                proof {
                    lemma_first_fault_stays(items@, i + 1);
                }
                return Err(message);
            },
            Ok(_) => {},
        }
        i = i + 1;
    }
    proof {
        assert(items@.take(items.len() as int) =~= items@);
    }
    Ok(())
}

proof fn lemma_first_fault_stays(items: Seq<PaymentAllocation>, k: int)
    requires
        0 <= k <= items.len(),
        each_allocation_verdict(items.take(k)) is Err,
    ensures
        each_allocation_verdict(items) == each_allocation_verdict(items.take(k)),
    decreases items.len() - k,
{
    if k == items.len() {
        assert(items.take(k) =~= items);
    } else {
        assert(items.drop_last().take(k) =~= items.take(k));
        lemma_first_fault_stays(items.drop_last(), k);
    }
}

// ---------------------------------------------------------------------------
// Reference
// ---------------------------------------------------------------------------

/// The reference of a payment begins with `PAY-` and has the shape of a
/// payment reference.
pub open spec fn payment_reference_verdict(payment: PaymentData) -> Verdict {
    if !"PAY-"@.is_prefix_of(payment.reference@) {
        Err("Payment reference must start with 'PAY-'"@)
    } else if !payment_reference_ok(payment.reference@) {
        Err("Payment reference must follow format: PAY-YYYY-XXXXXXXX"@)
    } else {
        Ok(())
    }
}

/// Checks the shape of the reference of a payment.
pub fn validate_payment_reference_format(payment: &PaymentData) -> (res: Result<(), String>)
    ensures
        outcome(res) == payment_reference_verdict(*payment),
{
    if !str_starts_with(payment.reference.as_str(), "PAY-") {
        return rejection("Payment reference must start with 'PAY-'");
    }
    if !is_valid_payment_reference(payment.reference.as_str()) {
        return rejection("Payment reference must follow format: PAY-YYYY-XXXXXXXX");
    }
    Ok(())
}

/// The rejection of a reference that another payment has.
pub open spec fn payment_reference_taken(reference: Seq<char>) -> Seq<char> {
    quoting("Payment reference '"@, reference, "' already exists"@)
}

/// No other payment has the reference, by the store's answer.
pub open spec fn payment_unique_verdict(key: Seq<char>, payment: PaymentData, answer: Answer) -> Verdict {
    unique_verdict(answer, key, payment_reference_taken(payment.reference@))
}

/// Reads the store's answer on the payments that have the reference of
/// `payment`.
pub fn check_payment_reference_unique(key: &str, payment: &PaymentData, answer: &Answer) -> (res:
    Result<(), String>)
    ensures
        outcome(res) == payment_unique_verdict(key@, *payment, *answer),
{
    match answer {
        Err(failure) => Err(failure.clone()),
        Ok(found) => {
            if has_conflict(found, key) {
                return Err(quote("Payment reference '", payment.reference.as_str(), "' already exists"));
            }
            Ok(())
        },
    }
}

/// The question for the payments that have the reference of `payment`.
pub fn payment_reference_query(payment: &PaymentData) -> (query: Query)
    ensures
        query@ == description_query(
            "payments"@,
            field_pattern("reference"@, payment.reference@),
        ),
{
    query_by_description("payments", pattern_for("reference", payment.reference.as_str()))
}

/// Checks the reference of a payment: its shape, and with the store that no
/// other payment has it.
pub fn validate_payment_reference_uniqueness(
    context: &SetDocContext<PaymentData>,
    payment: &PaymentData,
) -> (res: Result<(), String>)
    ensures
        exists|answer: Answer|
            outcome(res) == and_then(
                payment_reference_verdict(*payment),
                #[trigger] payment_unique_verdict(context.key@, *payment, answer),
            ),
{
    match validate_payment_reference_format(payment) {
        Err(message) => {
            proof {
                let answer: Answer = arbitrary();
                assert(outcome(Err(message)) == and_then(
                    payment_reference_verdict(*payment),
                    payment_unique_verdict(context.key@, *payment, answer),
                ));
            }
            Err(message)
        },
        Ok(_) => {
            let answer = ask(&payment_reference_query(payment));
            let res = check_payment_reference_unique(context.key.as_str(), payment, &answer);
            proof {
                assert(outcome(res) == and_then(
                    payment_reference_verdict(*payment),
                    payment_unique_verdict(context.key@, *payment, answer),
                ));
            }
            res
        },
    }
}

// ---------------------------------------------------------------------------
// The whole check
// ---------------------------------------------------------------------------

/// Everything that is asked of a payment short of the store: amount, date,
/// method, status, allocations and the shape of the reference, in this
/// order.
pub open spec fn payment_rules_verdict(
    current: Option<Result<PaymentData, String>>,
    payment: PaymentData,
) -> Verdict {
    and_then(
        payment_core_fields_verdict(payment),
        and_then(
            payment_dates_verdict(payment),
            and_then(
                payment_method_verdict(payment),
                and_then(
                    payment_status_verdict(current, payment),
                    and_then(
                        payment_allocations_verdict(payment),
                        payment_reference_verdict(payment),
                    ),
                ),
            ),
        ),
    )
}

/// The verdict on a write of a payment, given the store's answer on the
/// payments that have its reference: a record that cannot be read is
/// rejected with the decoder's words; else the first rule that fails
/// rejects; the store is heard last.
pub open spec fn payment_verdict(context: SetDocContext<PaymentData>, answer: Answer) -> Verdict {
    match context.proposed {
        Err(failure) => Err("Invalid payment data format: "@ + failure@),
        Ok(payment) => and_then(
            payment_rules_verdict(context.current, payment),
            payment_unique_verdict(context.key@, payment, answer),
        ),
    }
}

/// An accepted payment is allocated in full: its amount is positive, and
/// its allocations, one to twenty of them, add up to it within the
/// tolerance.
pub proof fn lemma_accepted_payment_is_allocated(
    context: SetDocContext<PaymentData>,
    answer: Answer,
)
    requires
        payment_verdict(context, answer) is Ok,
    ensures
        context.proposed is Ok,
        context.proposed->Ok_0.amount > 0,
        1 <= context.proposed->Ok_0.fee_allocations@.len() <= MAX_ALLOCATIONS,
        agree(
            context.proposed->Ok_0.amount as int,
            sum_of(allocation_amounts(context.proposed->Ok_0.fee_allocations@)),
        ),
{
}

fn check_payment_earlier_rules(context: &SetDocContext<PaymentData>, payment: &PaymentData) -> (res:
    Result<(), String>)
    ensures
        outcome(res) == and_then(
            payment_core_fields_verdict(*payment),
            and_then(
                payment_dates_verdict(*payment),
                and_then(
                    payment_method_verdict(*payment),
                    and_then(
                        payment_status_verdict(context.current, *payment),
                        payment_allocations_verdict(*payment),
                    ),
                ),
            ),
        ),
{
    match validate_payment_core_fields(payment) {
        Err(message) => {
            return Err(message);
        },
        Ok(_) => {},
    }
    match validate_payment_dates(payment) {
        Err(message) => {
            return Err(message);
        },
        Ok(_) => {},
    }
    match validate_payment_method_constraints(payment) {
        Err(message) => {
            return Err(message);
        },
        Ok(_) => {},
    }
    match validate_payment_status_transitions(context, payment) {
        Err(message) => {
            return Err(message);
        },
        Ok(_) => {},
    }
    validate_payment_allocations(payment)
}

fn check_payment_rules(context: &SetDocContext<PaymentData>, payment: &PaymentData) -> (res: Result<
    (),
    String,
>)
    ensures
        outcome(res) == payment_rules_verdict(context.current, *payment),
{
    match check_payment_earlier_rules(context, payment) {
        Err(message) => Err(message),
        Ok(_) => validate_payment_reference_format(payment),
    }
}

/// Decides on a write of a payment, given the store's answer on the payments
/// that have its reference.
pub fn check_payment_document(context: &SetDocContext<PaymentData>, answer: &Answer) -> (res: Result<
    (),
    String,
>)
    ensures
        outcome(res) == payment_verdict(*context, *answer),
{
    match &context.proposed {
        Err(failure) => unreadable("Invalid payment data format: ", failure),
        Ok(payment) => {
            match check_payment_rules(context, payment) {
                Err(message) => Err(message),
                Ok(_) => check_payment_reference_unique(context.key.as_str(), payment, answer),
            }
        },
    }
}

/// Decides on a write of a payment. The store is asked, once the payment has
/// passed every other rule, for the payments that have its reference; the
/// verdict is the one that `payment_verdict` gives for the store's answer.
pub fn validate_payment_document(context: &SetDocContext<PaymentData>) -> (res: Result<(), String>)
    ensures
        exists|answer: Answer| outcome(res) == #[trigger] payment_verdict(*context, answer),
{
    match &context.proposed {
        Err(failure) => {
            let res = unreadable("Invalid payment data format: ", failure);
            proof {
                let answer: Answer = arbitrary();
                assert(outcome(res) == payment_verdict(*context, answer));
            }
            res
        },
        Ok(payment) => {
            match check_payment_earlier_rules(context, payment) {
                Err(message) => {
                    proof {
                        let answer: Answer = arbitrary();
                        assert(outcome(Err(message)) == payment_verdict(*context, answer));
                    }
                    Err(message)
                },
                Ok(_) => {
                    let res = validate_payment_reference_uniqueness(context, payment);
                    proof {
                        let answer = choose|answer: Answer|
                            outcome(res) == and_then(
                                payment_reference_verdict(*payment),
                                #[trigger] payment_unique_verdict(context.key@, *payment, answer),
                            );
                        assert(outcome(res) == payment_verdict(*context, answer));
                    }
                    res
                },
            }
        },
    }
}

/// A write that changes the status of a payment along no edge of the graph
/// is rejected; where every rule before the status passes, the rejection is
/// the transition error.
pub proof fn lemma_payment_off_graph_rejected(
    context: SetDocContext<PaymentData>,
    before: PaymentData,
    answer: Answer,
)
    requires
        context.proposed is Ok,
        context.current == Some(Ok::<PaymentData, String>(before)),
        before.status@ != context.proposed->Ok_0.status@,
        !payment_statuses().allows(before.status@, context.proposed->Ok_0.status@),
    ensures
        payment_verdict(context, answer) is Err,
        payment_statuses().knows(context.proposed->Ok_0.status@) && payment_core_fields_verdict(
            context.proposed->Ok_0,
        ) is Ok && payment_dates_verdict(context.proposed->Ok_0) is Ok && payment_method_verdict(
            context.proposed->Ok_0,
        ) is Ok ==> payment_verdict(context, answer) == transition_verdict(
            payment_statuses(),
            before.status@,
            context.proposed->Ok_0.status@,
        ),
{
}

} // verus!
