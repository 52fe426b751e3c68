use school_rules::context::SetDocContext;
use school_rules::payments::check_payment_document;
use school_rules::payments::check_payment_reference_unique;
use school_rules::payments::payment_reference_query;
use school_rules::payments::validate_payment_allocations;
use school_rules::payments::validate_payment_core_fields;
use school_rules::payments::validate_payment_dates;
use school_rules::payments::validate_payment_document;
use school_rules::payments::validate_payment_method_constraints;
use school_rules::payments::validate_payment_reference_format;
use school_rules::payments::validate_payment_status_transitions;
use school_rules::payments::PaymentAllocation;
use school_rules::payments::PaymentData;
use school_rules::store::MatchBy;

fn allocation(fee_type: &str, amount: i64) -> PaymentAllocation {
    PaymentAllocation {
        category_id: "cat-1".to_string(),
        category_name: "Tuition".to_string(),
        fee_type: fee_type.to_string(),
        amount,
    }
}

fn payment() -> PaymentData {
    PaymentData {
        student_id: "s1".to_string(),
        student_name: "Ada Obi".to_string(),
        class_id: "c1".to_string(),
        class_name: "JSS 1".to_string(),
        fee_assignment_id: "fa1".to_string(),
        amount: 5_000_000,
        payment_method: "cash".to_string(),
        payment_date: "2024-03-15".to_string(),
        fee_allocations: vec![allocation("tuition", 4_000_000), allocation("books", 1_000_000)],
        reference: "PAY-2024-AB12CD34".to_string(),
        transaction_id: None,
        paid_by: None,
        status: "pending".to_string(),
        notes: None,
        receipt_url: None,
        recorded_by: "clerk".to_string(),
        created_at: 1,
        updated_at: 1,
    }
}

fn create(p: PaymentData) -> SetDocContext<PaymentData> {
    SetDocContext { key: String::new(), proposed: Ok(p), current: None }
}

fn update(before: PaymentData, p: PaymentData) -> SetDocContext<PaymentData> {
    SetDocContext { key: "k1".to_string(), proposed: Ok(p), current: Some(Ok(before)) }
}

fn none_found() -> Result<Vec<String>, String> {
    Ok(Vec::new())
}

fn reject(message: &str) -> Result<(), String> {
    Err(message.to_string())
}

#[test]
fn a_payment_in_order_is_accepted() {
    assert_eq!(check_payment_document(&create(payment()), &none_found()), Ok(()));
}

#[test]
fn a_payment_that_cannot_be_read_is_rejected_with_the_decoders_words() {
    let context: SetDocContext<PaymentData> =
        SetDocContext { key: String::new(), proposed: Err("missing field `amount`".to_string()), current: None };
    assert_eq!(
        check_payment_document(&context, &none_found()),
        reject("Invalid payment data format: missing field `amount`")
    );
    assert_eq!(
        validate_payment_document(&context),
        reject("Invalid payment data format: missing field `amount`")
    );
}

#[test]
fn payment_amount_must_be_positive() {
    let mut p = payment();
    p.amount = 0;
    assert_eq!(validate_payment_core_fields(&p), reject("Payment amount must be greater than zero"));
    p.amount = -1;
    assert_eq!(validate_payment_core_fields(&p), reject("Payment amount must be greater than zero"));
    p.amount = 1;
    assert_eq!(validate_payment_core_fields(&p), Ok(()));
    p.amount = 0;
    assert_eq!(validate_payment_document(&create(p)), reject("Payment amount must be greater than zero"));
}

#[test]
fn payment_date_must_have_the_shape_of_a_date() {
    let mut p = payment();
    p.payment_date = "15/03/2024".to_string();
    assert_eq!(validate_payment_dates(&p), reject("Invalid payment date format. Must be YYYY-MM-DD"));
    assert_eq!(
        check_payment_document(&create(p), &none_found()),
        reject("Invalid payment date format. Must be YYYY-MM-DD")
    );
}

#[test]
fn payment_method_must_be_known() {
    let mut p = payment();
    p.payment_method = "barter".to_string();
    assert_eq!(
        validate_payment_method_constraints(&p),
        reject("Invalid payment method 'barter'. Must be one of: cash, bank_transfer, pos, online, cheque")
    );
    for method in ["cash", "bank_transfer", "pos", "online", "cheque"] {
        p.payment_method = method.to_string();
        assert_eq!(validate_payment_method_constraints(&p), Ok(()));
    }
}

#[test]
fn payment_status_must_be_known() {
    let mut p = payment();
    p.status = "done".to_string();
    assert_eq!(
        validate_payment_status_transitions(&create(p.clone()), &p),
        reject("Invalid payment status 'done'. Must be one of: pending, confirmed, cancelled, refunded")
    );
}

#[test]
fn a_new_payment_is_pending_or_confirmed() {
    let mut p = payment();
    for status in ["pending", "confirmed"] {
        p.status = status.to_string();
        assert_eq!(validate_payment_status_transitions(&create(p.clone()), &p), Ok(()));
    }
    for status in ["cancelled", "refunded"] {
        p.status = status.to_string();
        p.notes = Some("a reason".to_string());
        assert_eq!(
            validate_payment_status_transitions(&create(p.clone()), &p),
            reject("New payments must have status 'pending' or 'confirmed'")
        );
    }
}

#[test]
fn payment_transitions_follow_the_graph() {
    let all = ["pending", "confirmed", "cancelled", "refunded"];
    let allowed = [("pending", "confirmed"), ("pending", "cancelled"), ("confirmed", "refunded")];
    for from in all {
        for to in all {
            let mut before = payment();
            before.status = from.to_string();
            let mut p = payment();
            p.status = to.to_string();
            p.notes = Some("customer asked".to_string());
            let verdict = validate_payment_status_transitions(&update(before, p.clone()), &p);
            if from == to || allowed.contains(&(from, to)) {
                assert_eq!(verdict, Ok(()));
            } else {
                let message = verdict.unwrap_err();
                assert!(message.starts_with(&format!(
                    "Invalid status transition from '{}' to '{}'. Allowed: [",
                    from, to
                )));
            }
        }
    }
    let mut before = payment();
    before.status = "refunded".to_string();
    let mut p = payment();
    p.status = "pending".to_string();
    assert_eq!(
        check_payment_document(&update(before, p), &none_found()),
        reject("Invalid status transition from 'refunded' to 'pending'. Allowed: []")
    );
}

#[test]
fn cancelled_and_refunded_payments_say_why() {
    let mut before = payment();
    before.status = "pending".to_string();
    let mut p = payment();
    p.status = "cancelled".to_string();
    assert_eq!(
        validate_payment_status_transitions(&update(before.clone(), p.clone()), &p),
        reject("Cancelled payments must include cancellation reason in notes")
    );
    p.notes = Some("   ".to_string());
    assert_eq!(
        validate_payment_status_transitions(&update(before.clone(), p.clone()), &p),
        reject("Cancelled payments must include cancellation reason in notes")
    );
    p.notes = Some("paid twice".to_string());
    assert_eq!(validate_payment_status_transitions(&update(before, p.clone()), &p), Ok(()));
    let mut before = payment();
    before.status = "confirmed".to_string();
    let mut p = payment();
    p.status = "refunded".to_string();
    assert_eq!(
        validate_payment_status_transitions(&update(before, p.clone()), &p),
        reject("Refunded payments must include refund reason in notes")
    );
}

#[test]
fn resubmitting_a_payment_asks_only_for_what_its_status_asks() {
    // A cancelled payment stays cancelled: no transition is looked at, the
    // reason still is.
    let mut before = payment();
    before.status = "cancelled".to_string();
    let mut p = payment();
    p.status = "cancelled".to_string();
    assert_eq!(
        validate_payment_status_transitions(&update(before.clone(), p.clone()), &p),
        reject("Cancelled payments must include cancellation reason in notes")
    );
    p.notes = Some("duplicate entry".to_string());
    assert_eq!(validate_payment_status_transitions(&update(before, p.clone()), &p), Ok(()));
    // A pending payment stays pending: nothing is asked.
    let p = payment();
    assert_eq!(validate_payment_status_transitions(&update(payment(), p.clone()), &p), Ok(()));
}

#[test]
fn a_previous_payment_that_cannot_be_read_is_rejected() {
    let p = payment();
    let context = SetDocContext {
        key: "k1".to_string(),
        proposed: Ok(p.clone()),
        current: Some(Err("bad bytes".to_string())),
    };
    assert_eq!(
        validate_payment_status_transitions(&context, &p),
        reject("Invalid previous payment data: bad bytes")
    );
}

#[test]
fn allocations_are_one_to_twenty() {
    let mut p = payment();
    p.fee_allocations = Vec::new();
    assert_eq!(validate_payment_allocations(&p), reject("Payment must have at least one fee allocation"));
    p.fee_allocations = (0..21).map(|_| allocation("tuition", 1)).collect();
    p.amount = 21;
    assert_eq!(validate_payment_allocations(&p), reject("Payment cannot have more than 20 fee allocations"));
    p.fee_allocations = (0..20).map(|_| allocation("tuition", 1)).collect();
    p.amount = 20;
    assert_eq!(validate_payment_allocations(&p), Ok(()));
}

#[test]
fn allocations_add_up_to_the_amount_within_a_hundredth() {
    let mut p = payment();
    p.amount = 5_000_001;
    assert_eq!(validate_payment_allocations(&p), Ok(()));
    p.amount = 4_999_999;
    assert_eq!(validate_payment_allocations(&p), Ok(()));
    p.amount = 5_000_002;
    assert_eq!(
        validate_payment_allocations(&p),
        reject("Payment amount (₦50000.02) must match sum of fee allocations (₦50000.00)")
    );
    p.amount = 4_999_998;
    assert_eq!(
        validate_payment_allocations(&p),
        reject("Payment amount (₦49999.98) must match sum of fee allocations (₦50000.00)")
    );
    p.amount = i64::MAX;
    p.fee_allocations = vec![allocation("tuition", i64::MAX), allocation("books", i64::MAX)];
    assert_eq!(
        validate_payment_allocations(&p),
        reject(
            "Payment amount (₦92233720368547758.07) must match sum of fee allocations (₦184467440737095516.14)"
        )
    );
}

#[test]
fn each_allocation_is_in_order() {
    let mut p = payment();
    p.fee_allocations[1].category_id = " ".to_string();
    assert_eq!(validate_payment_allocations(&p), reject("Fee allocation 2 must have a category ID"));
    let mut p = payment();
    p.fee_allocations[0].category_name = String::new();
    assert_eq!(validate_payment_allocations(&p), reject("Fee allocation 1 must have a category name"));
    let mut p = payment();
    p.fee_allocations[1].fee_type = String::new();
    assert_eq!(validate_payment_allocations(&p), reject("Fee allocation 2 must have a fee type"));
    let mut p = payment();
    p.fee_allocations[1].fee_type = "bribe".to_string();
    assert_eq!(
        validate_payment_allocations(&p),
        reject(
            "Invalid fee type 'bribe' in allocation 2. Must be one of: tuition, uniform, feeding, transport, books, sports, development, examination, pta, computer, library, laboratory, lesson, other"
        )
    );
    // The first allocation at fault is the one reported.
    let mut p = payment();
    p.fee_allocations[0].fee_type = "bribe".to_string();
    p.fee_allocations[1].category_id = String::new();
    assert!(validate_payment_allocations(&p).unwrap_err().starts_with("Invalid fee type 'bribe' in allocation 1."));
}

#[test]
fn payment_reference_has_its_shape() {
    let mut p = payment();
    p.reference = "EXP-2024-AB12CD34".to_string();
    assert_eq!(validate_payment_reference_format(&p), reject("Payment reference must start with 'PAY-'"));
    p.reference = "PAY-24-AB12CD34".to_string();
    assert_eq!(
        validate_payment_reference_format(&p),
        reject("Payment reference must follow format: PAY-YYYY-XXXXXXXX")
    );
    p.reference = "PAY-2024-AB12CD34".to_string();
    assert_eq!(validate_payment_reference_format(&p), Ok(()));
}

#[test]
fn payment_reference_is_unique() {
    let p = payment();
    let found = Ok(vec!["k9".to_string()]);
    assert_eq!(
        check_payment_reference_unique("", &p, &found),
        reject("Payment reference 'PAY-2024-AB12CD34' already exists")
    );
    assert_eq!(
        check_payment_reference_unique("k1", &p, &found),
        reject("Payment reference 'PAY-2024-AB12CD34' already exists")
    );
    assert_eq!(check_payment_reference_unique("k9", &p, &found), Ok(()));
    assert_eq!(
        check_payment_document(&create(payment()), &found),
        reject("Payment reference 'PAY-2024-AB12CD34' already exists")
    );
    assert_eq!(
        check_payment_document(&create(payment()), &Err("no such collection".to_string())),
        reject("no such collection")
    );
}

#[test]
fn the_first_failing_rule_of_a_payment_rejects() {
    let mut p = payment();
    p.amount = 0;
    p.payment_date = "nonsense".to_string();
    p.payment_method = "barter".to_string();
    p.reference = "x".to_string();
    assert_eq!(
        check_payment_document(&create(p.clone()), &none_found()),
        reject("Payment amount must be greater than zero")
    );
    p.amount = 5_000_000;
    assert_eq!(
        check_payment_document(&create(p.clone()), &none_found()),
        reject("Invalid payment date format. Must be YYYY-MM-DD")
    );
    p.payment_date = "2024-03-15".to_string();
    assert!(check_payment_document(&create(p.clone()), &none_found())
        .unwrap_err()
        .starts_with("Invalid payment method 'barter'"));
    p.payment_method = "pos".to_string();
    assert_eq!(
        check_payment_document(&create(p), &none_found()),
        reject("Payment reference must start with 'PAY-'")
    );
}

#[test]
fn every_accepted_payment_is_allocated_in_full() {
    for amount in [4_999_998i64, 4_999_999, 5_000_000, 5_000_001, 5_000_002] {
        let mut p = payment();
        p.amount = amount;
        let accepted = check_payment_document(&create(p), &none_found()).is_ok();
        assert_eq!(accepted, (amount - 5_000_000).abs() <= 1);
    }
}

#[test]
fn payments_with_a_reference_are_sought_among_the_payments() {
    let q = payment_reference_query(&payment());
    assert_eq!(q.collection, "payments");
    assert_eq!(q.by, MatchBy::Description);
    assert_eq!(q.pattern, "reference=PAY-2024-AB12CD34;");
}
